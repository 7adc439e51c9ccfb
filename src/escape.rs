//! HTML escaping of user text and XML escaping of element content.
use vstd::prelude::*;
use crate::text::push_char;

verus! {

/// What `c` becomes in minimally escaped HTML: one of five entities, or `c` itself.
pub open spec fn html_char(c: char) -> Seq<char> {
    if c == '"' {
        seq!['&', 'q', 'u', 'o', 't', ';']
    } else if c == '&' {
        seq!['&', 'a', 'm', 'p', ';']
    } else if c == '\'' {
        seq!['&', '#', 'x', '2', '7', ';']
    } else if c == '<' {
        seq!['&', 'l', 't', ';']
    } else if c == '>' {
        seq!['&', 'g', 't', ';']
    } else {
        seq![c]
    }
}

/// `s` with every character replaced by its minimal HTML escape.
pub open spec fn html_escaped(s: Seq<char>) -> Seq<char>
    decreases s.len(),
{
    if s.len() == 0 {
        seq![]
    } else {
        html_escaped(s.drop_last()) + html_char(s.last())
    }
}

/// Relies on `htmlescape::encode_minimal`: each of `"`, `&`, `'`, `<`, `>` becomes its
/// entity, every other character is copied.
#[verifier::external_body]
pub(crate) fn encode_minimal(s: &str) -> (r: String)
    ensures
        r@ == html_escaped(s@),
{
    htmlescape::encode_minimal(s)
}

/// What `c` becomes in XML character data.
pub open spec fn xml_char(c: char) -> Seq<char> {
    if c == '&' {
        seq!['&', 'a', 'm', 'p', ';']
    } else if c == '<' {
        seq!['&', 'l', 't', ';']
    } else if c == '>' {
        seq!['&', 'g', 't', ';']
    } else if c == '"' {
        seq!['&', 'q', 'u', 'o', 't', ';']
    } else if c == '\'' {
        seq!['&', 'a', 'p', 'o', 's', ';']
    } else {
        seq![c]
    }
}

/// `s` written as XML character data.
pub open spec fn xml_escaped(s: Seq<char>) -> Seq<char>
    decreases s.len(),
{
    if s.len() == 0 {
        seq![]
    } else {
        xml_escaped(s.drop_last()) + xml_char(s.last())
    }
}

/// Whether XML 1.0 can carry `c` at all: tab, newline, carriage return, and everything
/// from the space on but the two noncharacters U+FFFE and U+FFFF.
pub open spec fn xml_legal_char(c: char) -> bool {
    c == '\t' || c == '\n' || c == '\r' || (c >= ' ' && c != '\u{FFFE}' && c != '\u{FFFF}')
}

/// Whether XML 1.0 can carry every character of `s`.
pub open spec fn xml_legal(s: Seq<char>) -> bool {
    forall|i: int| 0 <= i < s.len() ==> xml_legal_char(#[trigger] s[i])
}

fn is_xml_legal_char(c: char) -> (r: bool)
    ensures
        r == xml_legal_char(c),
{
    c == '\t' || c == '\n' || c == '\r' || (c >= ' ' && c != '\u{FFFE}' && c != '\u{FFFF}')
}

fn push_entity(out: &mut String, c: char)
    ensures
        final(out)@ == old(out)@ + xml_char(c),
{
    if c == '&' {
        out.append("&amp;");
    } else if c == '<' {
        out.append("&lt;");
    } else if c == '>' {
        out.append("&gt;");
    } else if c == '"' {
        out.append("&quot;");
    } else if c == '\'' {
        out.append("&apos;");
    } else {
        push_char(out, c);
    }
    proof {
        reveal_strlit("&amp;");
        reveal_strlit("&lt;");
        reveal_strlit("&gt;");
        reveal_strlit("&quot;");
        reveal_strlit("&apos;");
        assert(final(out)@ =~= old(out)@ + xml_char(c));
    }
}

/// Appends `s` as XML character data to `out`; fails, leaving `out` as it was, when `s`
/// holds a character that XML cannot carry.
pub fn push_xml_text(out: &mut String, s: &str) -> (ok: bool)
    ensures
        ok == xml_legal(s@),
        ok ==> final(out)@ == old(out)@ + xml_escaped(s@),
        !ok ==> final(out)@ == old(out)@,
{
    let mut buf = String::new();
    for c in it: s.chars()
        invariant
            it.seq() == s@,
            buf@ == xml_escaped(s@.take(it.index() as int)),
            xml_legal(s@.take(it.index() as int)),
    {
        if !is_xml_legal_char(c) {
            return false;
        }
        push_entity(&mut buf, c);
        proof {
            let k = it.index() as int;
            assert(s@.take(k + 1).drop_last() =~= s@.take(k));
        }
    }
    proof {
        assert(s@.take(s@.len() as int) =~= s@);
    }
    out.append(buf.as_str());
    true
}

} // verus!
