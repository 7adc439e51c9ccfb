//! The stable identity (GUID) of a feed item.
use vstd::prelude::*;
use vstd::utf8::encode_utf8;
use crate::digest::{hex_of, sha1_digest, sha1_of, to_hex};
use crate::link::{canonical_link, canonical_link_of, opt_text, parse_link, url_parts, LinkParts};
use crate::model::Article;
use crate::text::{decimal_of, decimal_string, same_text};

verus! {

/// A feed item's identity, and whether that identity is a permalink.
#[derive(Clone, Debug)]
pub struct Guid {
    pub value: String,
    pub is_permalink: bool,
}

/// Whether `s` is one or more ASCII digits.
pub open spec fn all_digits(s: Seq<char>) -> bool {
    s.len() > 0 && forall|i: int| 0 <= i < s.len() ==> '0' <= #[trigger] s[i] <= '9'
}

/// The thread number in a discussion link of the form `https://news.ycombinator.com/item?id=N`.
pub open spec fn discussion_thread_of(link: Seq<char>) -> Option<Seq<char>> {
    match url_parts(link) {
        Some((Some(h), p, Some(q))) => {
            if h == "news.ycombinator.com"@ && p == "/item"@ && q.len() > 3 && q.take(3) == "id="@
                && all_digits(q.skip(3)) {
                Some(q.skip(3))
            } else {
                None
            }
        },
        _ => None,
    }
}

/// The discussion thread that an article carries: its positive `hn_id`, else the thread
/// named by its comment link.
pub open spec fn thread_of(a: Article) -> Option<Seq<char>> {
    if a.hn_id is Some && a.hn_id->0 > 0 {
        Some(decimal_of(a.hn_id->0 as nat))
    } else {
        match a.comment_link {
            Some(c) => discussion_thread_of(c@),
            None => None,
        }
    }
}

/// The identity token that hashes a link: `hash:` and the hex SHA-1 of its canonical form.
pub open spec fn link_hash_token(link: Seq<char>) -> Seq<char> {
    "hash:"@ + hex_of(sha1_of(encode_utf8(canonical_link_of(link))))
}

/// An article's GUID: `thread:` and the thread number, a permalink; else the hash token of
/// its link, no permalink.
pub open spec fn guid_of(a: Article) -> (Seq<char>, bool) {
    match thread_of(a) {
        Some(t) => ("thread:"@ + t, true),
        None => (link_hash_token(a.link@), false),
    }
}

fn digits_only(s: &str) -> (r: bool)
    ensures
        r == all_digits(s@),
{
    if s.unicode_len() == 0 {
        return false;
    }
    for c in it: s.chars()
        invariant
            it.seq() == s@,
            forall|i: int| 0 <= i < it.index() ==> '0' <= #[trigger] s@[i] <= '9',
    {
        if c < '0' || c > '9' {
            return false;
        }
    }
    true
}

/// The thread number of a discussion link, where `link` is one.
pub fn discussion_thread(link: &str) -> (r: Option<String>)
    ensures
        opt_text(r) == discussion_thread_of(link@),
{
    match parse_link(link) {
        Some(LinkParts { host: Some(h), path, query: Some(q) }) => {
            let n = q.as_str().unicode_len();
            if same_text(h.as_str(), "news.ycombinator.com") && same_text(path.as_str(), "/item")
                && n > 3 && same_text(q.as_str().substring_char(0, 3), "id=") {
                let digits = q.as_str().substring_char(3, n);
                if digits_only(digits) {
                    return Some(String::from_str(digits));
                }
            }
            None
        },
        _ => None,
    }
}

/// The thread that `article` carries, if any.
pub fn article_thread(article: &Article) -> (r: Option<String>)
    ensures
        opt_text(r) == thread_of(*article),
{
    match article.hn_id {
        Some(id) if id > 0 => Some(decimal_string(id as i64)),
        _ => match &article.comment_link {
            Some(c) => discussion_thread(c.as_str()),
            None => None,
        },
    }
}

/// The hash token of `link`.
pub fn link_token(link: &str) -> (r: String)
    ensures
        r@ == link_hash_token(link@),
{
    let canon = canonical_link(link);
    let digest = sha1_digest(canon.as_str().as_bytes());
    let mut r = String::from_str("hash:");
    let hex = to_hex(&digest);
    r.append(hex.as_str());
    r
}

/// The GUID of the item built from `article`.
pub fn build_item_guid(article: &Article) -> (g: Guid)
    ensures
        (g.value@, g.is_permalink) == guid_of(*article),
{
    match article_thread(article) {
        Some(t) => {
            let mut value = String::from_str("thread:");
            value.append(t.as_str());
            Guid { value, is_permalink: true }
        },
        None => Guid { value: link_token(article.link.as_str()), is_permalink: false },
    }
}

} // verus!
