//! What a feed item derives from its article's link: display domain and canonical form.
use vstd::prelude::*;
use crate::text::{ascii_lower, same_text, to_ascii_lower};

verus! {

/// The parts of a link that parsed: host (if any), path, and query (if any).
pub struct LinkParts {
    pub host: Option<String>,
    pub path: String,
    pub query: Option<String>,
}

/// The parts, as text, that the URL parser finds in `s`, or `None` where `s` is no URL.
pub uninterp spec fn url_parts(s: Seq<char>) -> Option<(Option<Seq<char>>, Seq<char>, Option<Seq<char>>)>;

/// An optional text as its characters.
pub open spec fn opt_text(o: Option<String>) -> Option<Seq<char>> {
    match o {
        Some(t) => Some(t@),
        None => None,
    }
}

/// The parts of a parsed link as characters.
pub open spec fn parts_view(r: Option<LinkParts>) -> Option<(Option<Seq<char>>, Seq<char>, Option<Seq<char>>)> {
    match r {
        Some(p) => Some((opt_text(p.host), p.path@, opt_text(p.query))),
        None => None,
    }
}

/// Relies on `url::Url::parse`, with `host_str`, `path` and `query` on its result: what it
/// finds depends on the text alone.
#[verifier::external_body]
pub(crate) fn parse_link(s: &str) -> (r: Option<LinkParts>)
    ensures
        parts_view(r) == url_parts(s@),
{
    url::Url::parse(s).ok().map(|u| LinkParts {
        host: u.host_str().map(|h| h.to_string()),
        path: u.path().to_string(),
        query: u.query().map(|q| q.to_string()),
    })
}

/// `host` without a leading `www.` in any letter case, where something is left after it.
pub open spec fn strip_www(host: Seq<char>) -> Seq<char> {
    if host.len() > 4 && ascii_lower(host.take(4)) == "www."@ {
        host.skip(4)
    } else {
        host
    }
}

/// The domain shown for a link: its host less `www.`, or `source` where there is no host.
pub open spec fn display_domain_of(link: Seq<char>) -> Seq<char> {
    match url_parts(link) {
        Some((Some(h), _, _)) => strip_www(h),
        _ => "source"@,
    }
}

/// The form of a link that identifies its article: the host in small letters followed by
/// the path, with query and fragment left out; the text itself where it does not parse.
pub open spec fn canonical_link_of(link: Seq<char>) -> Seq<char> {
    match url_parts(link) {
        Some((h, p, _)) => ascii_lower(
            match h {
                Some(t) => t,
                None => Seq::<char>::empty(),
            },
        ) + p,
        None => link,
    }
}

/// The domain shown for `link`.
pub fn display_domain(link: &str) -> (r: String)
    ensures
        r@ == display_domain_of(link@),
{
    match parse_link(link) {
        Some(LinkParts { host: Some(h), .. }) => {
            let n = h.as_str().unicode_len();
            if n > 4 {
                let head = to_ascii_lower(h.as_str().substring_char(0, 4));
                if same_text(head.as_str(), "www.") {
                    return String::from_str(h.as_str().substring_char(4, n));
                }
            }
            h
        },
        _ => String::from_str("source"),
    }
}

/// The canonical form of `link`.
pub fn canonical_link(link: &str) -> (r: String)
    ensures
        r@ == canonical_link_of(link@),
{
    match parse_link(link) {
        Some(parts) => {
            let mut out = match parts.host {
                Some(h) => to_ascii_lower(h.as_str()),
                None => String::new(),
            };
            proof {
                assert(ascii_lower(Seq::<char>::empty()) =~= Seq::<char>::empty());
            }
            out.append(parts.path.as_str());
            out
        },
        None => String::from_str(link),
    }
}

} // verus!
