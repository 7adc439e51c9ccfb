//! Timestamps: RFC 3339 in, RFC 2822 out, and the current time; all in whole seconds UTC.
use vstd::prelude::*;

verus! {

/// The earliest second that RFC 2822 can write: 0000-01-01T00:00:00Z.
pub const MIN_RFC2822_SECS: i64 = -62167219200;

/// The last second that RFC 2822 can write: 9999-12-31T23:59:59Z.
pub const MAX_RFC2822_SECS: i64 = 253402300799;

/// Whether RFC 2822 can write the second `t`.
pub open spec fn writable(t: int) -> bool {
    MIN_RFC2822_SECS <= t <= MAX_RFC2822_SECS
}

/// The Unix second that an RFC 3339 timestamp names, or `None` where `s` is not one.
pub uninterp spec fn rfc3339_seconds(s: Seq<char>) -> Option<i64>;

/// The RFC 2822 text of the Unix second `t`, in UTC.
pub uninterp spec fn rfc2822_of(t: int) -> Seq<char>;

/// Relies on `chrono::DateTime::parse_from_rfc3339` and `timestamp`: the whole Unix seconds
/// of the instant that the text names.
#[verifier::external_body]
pub(crate) fn parse_rfc3339(s: &str) -> (r: Option<i64>)
    ensures
        r == rfc3339_seconds(s@),
{
    chrono::DateTime::parse_from_rfc3339(s).ok().map(|d| d.timestamp())
}

/// Relies on `chrono::DateTime::from_timestamp` and `to_rfc2822`, which writes years 0 to
/// 9999 (and panics on others) with English names, digits, spaces, `,`, `:` and the offset.
/// It writes the whole date and the time to the second at offset `+0000`, so no other
/// writable second has the same text.
#[verifier::external_body]
pub(crate) fn format_rfc2822(t: i64) -> (r: String)
    requires
        writable(t as int),
    ensures
        r@ == rfc2822_of(t as int),
        forall|i: int| 0 <= i < r@.len() ==> ' ' <= #[trigger] r@[i] <= '~',
        forall|u: int| writable(u) && u != t ==> #[trigger] rfc2822_of(u) != r@,
{
    match chrono::DateTime::from_timestamp(t, 0) {
        Some(d) => d.to_rfc2822(),
        None => String::new(),
    }
}

/// Relies on `chrono::Utc::now` and `timestamp`: the current Unix second, which may be
/// anything.
#[verifier::external_body]
pub(crate) fn now_seconds() -> (r: i64) {
    chrono::Utc::now().timestamp()
}

/// `t` in RFC 2822 form, where it can be written.
pub fn rfc2822(t: i64) -> (r: Option<String>)
    ensures
        writable(t as int) <==> r is Some,
        r is Some ==> r->0@ == rfc2822_of(t as int),
        r is Some ==> forall|i: int| 0 <= i < r->0@.len() ==> ' ' <= #[trigger] r->0@[i] <= '~',
{
    if MIN_RFC2822_SECS <= t && t <= MAX_RFC2822_SECS {
        Some(format_rfc2822(t))
    } else {
        None
    }
}

} // verus!
