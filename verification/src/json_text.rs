//! JSON text for the small documents the store writes itself: string
//! literals, string arrays and flat objects of strings.
use vstd::prelude::*;
use vstd::string::StringExecFns;
use crate::text::{join_with, lemma_join_with_push, str_views, string_of_chars, string_views};

verus! {

broadcast use vstd::string::group_string_axioms;

/// A lower-case hexadecimal digit.
pub open spec fn hex_digit(d: int) -> char {
    "0123456789abcdef"@[d]
}

/// How one character stands inside a JSON string: the quote, the backslash
/// and the control characters are escaped (with their short forms where
/// JSON has one), everything else stands as it is.
pub open spec fn json_escape_char(c: char) -> Seq<char> {
    if c == '"' {
        seq!['\\', '"']
    } else if c == '\\' {
        seq!['\\', '\\']
    } else if c == '\u{8}' {
        seq!['\\', 'b']
    } else if c == '\t' {
        seq!['\\', 't']
    } else if c == '\n' {
        seq!['\\', 'n']
    } else if c == '\u{c}' {
        seq!['\\', 'f']
    } else if c == '\r' {
        seq!['\\', 'r']
    } else if (c as u32) < 0x20 {
        seq!['\\', 'u', '0', '0', hex_digit((c as u32) as int / 16), hex_digit((c as u32) as int % 16)]
    } else {
        seq![c]
    }
}

/// The escaped body of a JSON string.
pub open spec fn json_escape(s: Seq<char>) -> Seq<char>
    decreases s.len(),
{
    if s.len() == 0 {
        Seq::empty()
    } else {
        json_escape(s.drop_last()) + json_escape_char(s.last())
    }
}

/// `s` as a JSON string literal.
pub open spec fn json_string_text(s: Seq<char>) -> Seq<char> {
    seq!['"'] + json_escape(s) + seq!['"']
}

fn escape_char_into(out: &mut String, c: char)
    ensures
        final(out)@ == old(out)@ + json_escape_char(c),
{
    proof {
        reveal_strlit("\\\"");
        reveal_strlit("\\\\");
        reveal_strlit("\\b");
        reveal_strlit("\\t");
        reveal_strlit("\\n");
        reveal_strlit("\\f");
        reveal_strlit("\\r");
        reveal_strlit("\\u00");
        reveal_strlit("0123456789abcdef");
    }
    if c == '"' {
        out.append("\\\"");
    } else if c == '\\' {
        out.append("\\\\");
    } else if c == '\u{8}' {
        out.append("\\b");
    } else if c == '\t' {
        out.append("\\t");
    } else if c == '\n' {
        out.append("\\n");
    } else if c == '\u{c}' {
        out.append("\\f");
    } else if c == '\r' {
        out.append("\\r");
    } else if (c as u32) < 0x20 {
        let code = c as u32;
        let hex = "0123456789abcdef";
        let hi = (code / 16) as usize;
        let lo = (code % 16) as usize;
        out.append("\\u00");
        out.append(hex.substring_char(hi, hi + 1));
        out.append(hex.substring_char(lo, lo + 1));
    } else {
        let single = char_text(c);
        out.append(single.as_str());
    }
    assert(out@ =~= old(out)@ + json_escape_char(c));
}

/// A one-character text.
fn char_text(c: char) -> (r: String)
    ensures
        r@ == seq![c],
{
    let mut v: Vec<char> = Vec::new();
    v.push(c);
    string_of_chars(&v)
}

/// `s` as a JSON string literal.
pub fn json_string(s: &str) -> (r: String)
    ensures
        r@ == json_string_text(s@),
{
    let mut out = String::from_str("\"");
    proof {
        reveal_strlit("\"");
    }
    let ghost start = out@;
    for c in it: s.chars()
        invariant
            it.seq() == s@,
            start == seq!['"'],
            out@ == start + json_escape(s@.take(it.index() as int)),
    {
        proof {
            assert(s@.take(it.index() + 1).drop_last() =~= s@.take(it.index() as int));
        }
        escape_char_into(&mut out, c);
        proof {
            assert(out@ =~= start + json_escape(s@.take(it.index() + 1)));
        }
    }
    proof {
        assert(s@.take(s@.len() as int) =~= s@);
    }
    out.append("\"");
    proof {
        assert(out@ =~= json_string_text(s@));
    }
    out
}

/// A JSON array of the given strings, written compactly.
pub open spec fn json_string_array_text(items: Seq<Seq<char>>) -> Seq<char> {
    seq!['['] + join_with(items.map_values(|s: Seq<char>| json_string_text(s)), seq![',']) + seq![
        ']',
    ]
}

pub fn json_string_array(items: &Vec<&str>) -> (r: String)
    ensures
        r@ == json_string_array_text(str_views(items@)),
{
    proof {
        reveal_strlit("[");
        reveal_strlit(",");
        reveal_strlit("]");
        assert(","@ =~= seq![',']);
    }
    let ghost texts = str_views(items@).map_values(|s: Seq<char>| json_string_text(s));
    let mut body = String::new();
    let n = items.len();
    for i in 0..n
        invariant
            n == items@.len(),
            texts == str_views(items@).map_values(|s: Seq<char>| json_string_text(s)),
            body@ == join_with(texts.take(i as int), seq![',']),
            ","@ == seq![','],
    {
        let piece = json_string(items[i]);
        proof {
            assert(texts[i as int] == piece@);
            lemma_join_with_push(texts.take(i as int), seq![','], piece@);
            assert(texts.take(i + 1) =~= texts.take(i as int).push(piece@));
        }
        if i > 0 {
            body.append(",");
        }
        body.append(piece.as_str());
    }
    proof {
        assert(texts.take(n as int) =~= texts);
    }
    let mut out = String::from_str("[");
    out.append(body.as_str());
    out.append("]");
    out
}

/// A JSON array of the given strings, written compactly.
pub fn json_string_array_of_strings(items: &Vec<String>) -> (r: String)
    ensures
        r@ == json_string_array_text(string_views(items@)),
{
    proof {
        reveal_strlit("[");
        reveal_strlit(",");
        reveal_strlit("]");
        assert(","@ =~= seq![',']);
    }
    let ghost texts = string_views(items@).map_values(|s: Seq<char>| json_string_text(s));
    let mut body = String::new();
    let n = items.len();
    for i in 0..n
        invariant
            n == items@.len(),
            texts == string_views(items@).map_values(|s: Seq<char>| json_string_text(s)),
            body@ == join_with(texts.take(i as int), seq![',']),
            ","@ == seq![','],
    {
        let piece = json_string(items[i].as_str());
        proof {
            assert(texts[i as int] == piece@);
            lemma_join_with_push(texts.take(i as int), seq![','], piece@);
            assert(texts.take(i + 1) =~= texts.take(i as int).push(piece@));
        }
        if i > 0 {
            body.append(",");
        }
        body.append(piece.as_str());
    }
    proof {
        assert(texts.take(n as int) =~= texts);
    }
    let mut out = String::from_str("[");
    out.append(body.as_str());
    out.append("]");
    out
}


/// The strings of a JSON text that is an array of strings; `None` for any
/// other text.
pub uninterp spec fn json_string_list(text: Seq<char>) -> Option<Seq<Seq<char>>>;

/// Calls `serde_json::from_str::<Vec<String>>` and keeps the value when the
/// text parses. Claimed: the result is `json_string_list` of the text, which
/// depends on the text alone.
#[verifier::external_body]
pub(crate) fn parse_json_string_list(text: &str) -> (r: Option<Vec<String>>)
    ensures
        match r {
            Some(v) => json_string_list(text@) == Some(string_views(v@)),
            None => json_string_list(text@) is None,
        },
{
    serde_json::from_str::<Vec<String>>(text).ok()
}

} // verus!
