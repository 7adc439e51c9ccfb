//! One feed item built from one article and its place in the feed.
use vstd::prelude::*;
use crate::clock::{
    format_rfc2822, parse_rfc3339, rfc2822_of, rfc3339_seconds, writable, MAX_RFC2822_SECS,
    MIN_RFC2822_SECS,
};
use crate::escape::{encode_minimal, html_escaped};
use crate::identity::{build_item_guid, guid_of, Guid};
use crate::link::{display_domain, display_domain_of};
use crate::model::Article;
use crate::text::{decimal_of, decimal_string, push_char, signed_decimal_of, trim, trimmed};

verus! {

/// A feed item: title, HTML description, identity, and RFC 2822 publication date.
#[derive(Clone, Debug)]
pub struct FeedItem {
    pub title: String,
    pub description: String,
    pub guid: Guid,
    pub pub_date: String,
}

/// The separator between the parts of an item's footer.
pub open spec fn footer_sep() -> Seq<char> {
    " \u{b7} "@
}

/// The link to the discussion of an article: its comment link where that is not empty,
/// else the thread page of its positive `hn_id`.
pub open spec fn comment_target(a: Article) -> Option<Seq<char>> {
    if a.comment_link is Some && a.comment_link->0@.len() > 0 {
        Some(a.comment_link->0@)
    } else if a.hn_id is Some && a.hn_id->0 > 0 {
        Some("https://news.ycombinator.com/item?id="@ + decimal_of(a.hn_id->0 as nat))
    } else {
        None
    }
}

/// A count, zero where it is absent.
pub open spec fn count_or_zero(o: Option<i32>) -> int {
    match o {
        Some(n) => n as int,
        None => 0,
    }
}

/// The comment part of the footer: a link on the count where there are comments and a
/// place to read them, else the count alone.
pub open spec fn comments_html(a: Article) -> Seq<char> {
    let cnt = count_or_zero(a.comment_count);
    if cnt > 0 && comment_target(a) is Some {
        "<a href=\""@ + html_escaped(comment_target(a)->0) + "\">\u{1F4AC} "@ + signed_decimal_of(cnt)
            + "</a>"@
    } else {
        "\u{1F4AC} "@ + signed_decimal_of(cnt)
    }
}

/// A labelled provenance part of the footer, or nothing where the value is absent or empty.
pub open spec fn provenance_html(label: Seq<char>, v: Option<String>) -> Seq<char> {
    match v {
        Some(t) => if t@.len() > 0 { footer_sep() + label + html_escaped(t@) } else { seq![] },
        None => seq![],
    }
}

/// The footer of an item: upvotes, comments, model and commit where present, and the
/// source domain linking to the article, joined by a middle dot.
pub open spec fn footer_of(a: Article) -> Seq<char> {
    "\u{25B2} "@ + signed_decimal_of(count_or_zero(a.upvotes)) + footer_sep() + comments_html(a)
        + provenance_html("\u{1F916} "@, a.model_name) + provenance_html("\u{1F528} "@, a.commit_hash)
        + footer_sep() + "<a href=\""@ + html_escaped(a.link@) + "\">\u{1F310} "@
        + html_escaped(display_domain_of(a.link@)) + "</a>"@
}

/// Whether `s` is empty or only white space.
pub open spec fn blank(s: Seq<char>) -> bool {
    trimmed(s).len() == 0
}

/// The text shown as an item's summary.
pub open spec fn summary_text(a: Article) -> Seq<char> {
    match a.summary {
        Some(s) => if blank(s@) { "No summary"@ } else { s@ },
        None => "No summary"@,
    }
}

/// `s` with every line feed replaced by an HTML line break.
pub open spec fn with_breaks(s: Seq<char>) -> Seq<char>
    decreases s.len(),
{
    if s.len() == 0 {
        seq![]
    } else {
        with_breaks(s.drop_last()) + if s.last() == '\n' { "<br>"@ } else { seq![s.last()] }
    }
}

/// An item's description: the escaped summary with line breaks, then the footer.
pub open spec fn description_of(a: Article) -> Seq<char> {
    with_breaks(html_escaped(summary_text(a))) + "<br><br><small>"@ + footer_of(a) + "</small>"@
}

/// The text that dates an article: `published_at` where present, else `created_at`.
pub open spec fn date_text(a: Article) -> Seq<char> {
    match a.published_at {
        Some(p) => p@,
        None => a.created_at@,
    }
}

/// The second an article's date stands for: `published_at` where present, else
/// `created_at`; the build time where that text is no RFC 3339 timestamp RFC 2822 can write.
pub open spec fn base_seconds(a: Article, now: i64) -> int {
    match rfc3339_seconds(date_text(a)) {
        Some(t) => if writable(t as int) { t as int } else { now as int },
        None => now as int,
    }
}

/// The publication second of the item at place `idx` of a feed of `total` items: one second
/// earlier per place, from the article's own second; from the build time where the last
/// place would fall before what RFC 2822 can write.
pub open spec fn pub_seconds(a: Article, total: int, idx: int, now: i64) -> int {
    if writable(base_seconds(a, now) - (total - 1)) {
        base_seconds(a, now) - idx
    } else {
        now - idx
    }
}

/// Whether the item at place `idx` of a feed of `total` items has a publication date that
/// RFC 2822 can write.
pub open spec fn item_writable(a: Article, total: int, idx: int, now: i64) -> bool {
    writable(pub_seconds(a, total, idx, now))
}

/// Whether `text` is the RFC 2822 text of the second `t` and of no other writable second.
pub open spec fn date_names_only(text: Seq<char>, t: int) -> bool {
    &&& writable(t)
    &&& text == rfc2822_of(t)
    &&& forall|u: int| writable(u) && u != t ==> #[trigger] rfc2822_of(u) != text
}

/// The item built from `a` at place `idx` of a feed of `total` items.
pub open spec fn item_matches(it: FeedItem, a: Article, total: int, idx: int, now: i64) -> bool {
    &&& it.title@ == a.title@
    &&& it.description@ == description_of(a)
    &&& (it.guid.value@, it.guid.is_permalink) == guid_of(a)
    &&& date_names_only(it.pub_date@, pub_seconds(a, total, idx, now))
}

fn is_blank(s: &str) -> (r: bool)
    ensures
        r == blank(s@),
{
    let t = trim(s);
    t.as_str().unicode_len() == 0
}

/// `s` with every line feed replaced by `<br>`.
pub fn replace_newlines(s: &str) -> (r: String)
    ensures
        r@ == with_breaks(s@),
{
    let mut out = String::new();
    for c in it: s.chars()
        invariant
            it.seq() == s@,
            out@ == with_breaks(s@.take(it.index() as int)),
    {
        if c == '\n' {
            out.append("<br>");
        } else {
            push_char(&mut out, c);
        }
        proof {
            let k = it.index() as int;
            assert(s@.take(k + 1).drop_last() =~= s@.take(k));
        }
    }
    proof {
        assert(s@.take(s@.len() as int) =~= s@);
    }
    out
}

fn comment_url(article: &Article) -> (r: Option<String>)
    ensures
        match r {
            Some(u) => comment_target(*article) == Some(u@),
            None => comment_target(*article) is None,
        },
{
    match &article.comment_link {
        Some(c) if c.as_str().unicode_len() > 0 => {
            return Some(c.clone());
        },
        _ => {},
    }
    match article.hn_id {
        Some(id) if id > 0 => {
            let mut u = String::from_str("https://news.ycombinator.com/item?id=");
            let d = decimal_string(id as i64);
            u.append(d.as_str());
            Some(u)
        },
        _ => None,
    }
}

fn push_provenance(out: &mut String, label: &str, v: &Option<String>)
    ensures
        final(out)@ == old(out)@ + provenance_html(label@, *v),
{
    match v {
        Some(t) => {
            if t.as_str().unicode_len() > 0 {
                out.append(" \u{b7} ");
                out.append(label);
                let e = encode_minimal(t.as_str());
                out.append(e.as_str());
            } else {
                assert(provenance_html(label@, *v) =~= seq![]);
            }
        },
        None => {
            assert(provenance_html(label@, *v) =~= seq![]);
        },
    }
}

/// The footer of the item built from `article`.
pub fn build_item_footer(article: &Article) -> (r: String)
    ensures
        r@ == footer_of(*article),
{
    let mut out = String::from_str("\u{25B2} ");
    let up = decimal_string(match article.upvotes { Some(n) => n as i64, None => 0 });
    out.append(up.as_str());
    out.append(" \u{b7} ");
    let cnt: i32 = match article.comment_count { Some(n) => n, None => 0 };
    let cnt_text = decimal_string(cnt as i64);
    let target = if cnt > 0 { comment_url(article) } else { None };
    match target {
        Some(u) => {
            out.append("<a href=\"");
            let e = encode_minimal(u.as_str());
            out.append(e.as_str());
            out.append("\">\u{1F4AC} ");
            out.append(cnt_text.as_str());
            out.append("</a>");
        },
        None => {
            proof {
                if cnt > 0 {
                    assert(comment_target(*article) is None);
                }
            }
            out.append("\u{1F4AC} ");
            out.append(cnt_text.as_str());
        },
    }
    push_provenance(&mut out, "\u{1F916} ", &article.model_name);
    push_provenance(&mut out, "\u{1F528} ", &article.commit_hash);
    out.append(" \u{b7} ");
    out.append("<a href=\"");
    let href = encode_minimal(article.link.as_str());
    out.append(href.as_str());
    out.append("\">\u{1F310} ");
    let domain = display_domain(article.link.as_str());
    let shown = encode_minimal(domain.as_str());
    out.append(shown.as_str());
    out.append("</a>");
    proof {
        assert(out@ =~= footer_of(*article));
    }
    out
}

/// The description of the item built from `article`.
pub fn build_item_description(article: &Article) -> (r: String)
    ensures
        r@ == description_of(*article),
{
    let escaped = match &article.summary {
        Some(s) if !is_blank(s.as_str()) => encode_minimal(s.as_str()),
        _ => encode_minimal("No summary"),
    };
    let mut out = replace_newlines(escaped.as_str());
    out.append("<br><br><small>");
    let footer = build_item_footer(article);
    out.append(footer.as_str());
    out.append("</small>");
    out
}

/// The publication second of `article` at place `idx` of a feed of `total` items, where
/// RFC 2822 can write it.
pub fn publication_seconds(article: &Article, total: usize, idx: usize, now: i64) -> (r: Option<i64>)
    requires
        idx < total,
    ensures
        item_writable(*article, total as int, idx as int, now) <==> r is Some,
        writable(now - idx) ==> r is Some,
        r is Some ==> r->0 == pub_seconds(*article, total as int, idx as int, now),
{
    let text = match &article.published_at {
        Some(p) => p.as_str(),
        None => article.created_at.as_str(),
    };
    let base: i64 = match parse_rfc3339(text) {
        Some(t) => if MIN_RFC2822_SECS <= t && t <= MAX_RFC2822_SECS { t } else { now },
        None => now,
    };
    let last: i128 = base as i128 - (total as i128 - 1);
    let t: i128 = if MIN_RFC2822_SECS as i128 <= last && last <= MAX_RFC2822_SECS as i128 {
        base as i128 - idx as i128
    } else {
        now as i128 - idx as i128
    };
    if MIN_RFC2822_SECS as i128 <= t && t <= MAX_RFC2822_SECS as i128 {
        Some(t as i64)
    } else {
        None
    }
}

/// The publication date of `article` at place `idx` of a feed of `total` items, in RFC 2822
/// form, where it can be written.
pub fn format_pub_date(article: &Article, total: usize, idx: usize, now: i64) -> (r: Option<String>)
    requires
        idx < total,
    ensures
        item_writable(*article, total as int, idx as int, now) <==> r is Some,
        writable(now - idx) ==> r is Some,
        r is Some ==> date_names_only(r->0@, pub_seconds(*article, total as int, idx as int, now)),
{
    match publication_seconds(article, total, idx, now) {
        Some(t) => Some(format_rfc2822(t)),
        None => None,
    }
}

/// The item built from `article` at place `idx` of a feed of `total` items, where its date
/// can be written.
pub fn build_rss_item(article: &Article, total: usize, idx: usize, now: i64) -> (r: Option<FeedItem>)
    requires
        idx < total,
    ensures
        item_writable(*article, total as int, idx as int, now) <==> r is Some,
        writable(now - idx) ==> r is Some,
        r is Some ==> item_matches(r->0, *article, total as int, idx as int, now),
{
    let pub_date = match format_pub_date(article, total, idx, now) {
        Some(d) => d,
        None => return None,
    };
    Some(FeedItem {
        title: article.title.clone(),
        description: build_item_description(article),
        guid: build_item_guid(article),
        pub_date,
    })
}

} // verus!
