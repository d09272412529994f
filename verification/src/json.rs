//! JSON text: string literals, as serde_json writes them.

use vstd::prelude::*;
use crate::keyed::text_entries;
use crate::text::{chars_of, opt_view, push_char};

verus! {

/// A lowercase hexadecimal digit.
pub open spec fn hex_digit(d: u32) -> char {
    seq!['0', '1', '2', '3', '4', '5', '6', '7', '8', '9', 'a', 'b', 'c', 'd', 'e', 'f'][d as int]
}

/// How one character is written inside a JSON string: quote and backslash
/// escaped by a backslash; backspace, tab, line feed, form feed and
/// carriage return by their short escapes; the other control characters
/// below U+0020 as `\u00XX` with lowercase hex digits; anything else as it is.
pub open spec fn json_char_escape(c: char) -> Seq<char> {
    let u = c as u32;
    if c == '"' {
        seq!['\\', '"']
    } else if c == '\\' {
        seq!['\\', '\\']
    } else if u == 0x08 {
        seq!['\\', 'b']
    } else if u == 0x09 {
        seq!['\\', 't']
    } else if u == 0x0A {
        seq!['\\', 'n']
    } else if u == 0x0C {
        seq!['\\', 'f']
    } else if u == 0x0D {
        seq!['\\', 'r']
    } else if u < 0x20 {
        seq!['\\', 'u', '0', '0', hex_digit(u / 16), hex_digit(u % 16)]
    } else {
        seq![c]
    }
}

/// The characters of `s`, each escaped as inside a JSON string.
pub open spec fn json_escaped(s: Seq<char>) -> Seq<char>
    decreases s.len(),
{
    if s.len() == 0 {
        seq![]
    } else {
        json_escaped(s.drop_last()) + json_char_escape(s.last())
    }
}

/// The JSON string literal of a text, quotes and escapes included, as
/// `serde_json::to_string` writes it.
pub open spec fn json_string_literal(s: Seq<char>) -> Seq<char> {
    seq!['"'] + json_escaped(s) + seq!['"']
}

/// The hexadecimal digit of a value below 16.
fn hex_char(d: u32) -> (r: char)
    requires
        d < 16,
    ensures
        r == hex_digit(d),
{
    let digits: Vec<char> = vec!['0', '1', '2', '3', '4', '5', '6', '7', '8', '9', 'a', 'b', 'c', 'd', 'e', 'f'];
    assert(digits@ =~= seq!['0', '1', '2', '3', '4', '5', '6', '7', '8', '9', 'a', 'b', 'c', 'd', 'e', 'f']);
    digits[d as usize]
}

/// Appends one character as it is written inside a JSON string.
fn push_json_char(out: &mut String, c: char)
    ensures
        final(out)@ == old(out)@ + json_char_escape(c),
{
    let u = c as u32;
    if c == '"' || c == '\\' {
        push_char(out, '\\');
        push_char(out, c);
    } else if u == 0x08 || u == 0x09 || u == 0x0A || u == 0x0C || u == 0x0D {
        let letter = if u == 0x08 { 'b' } else if u == 0x09 { 't' } else if u == 0x0A { 'n' } else if u == 0x0C { 'f' } else { 'r' };
        push_char(out, '\\');
        push_char(out, letter);
    } else if u < 0x20 {
        push_char(out, '\\');
        push_char(out, 'u');
        push_char(out, '0');
        push_char(out, '0');
        push_char(out, hex_char(u / 16));
        push_char(out, hex_char(u % 16));
    } else {
        push_char(out, c);
    }
    proof {
        assert(out@ =~= old(out)@ + json_char_escape(c));
    }
}

/// The JSON string literal of a text, as `serde_json::to_string` writes it.
pub(crate) fn json_quote(s: &str) -> (r: String)
    ensures
        r@ == json_string_literal(s@),
{
    let cs = chars_of(s);
    let mut out = String::new();
    push_char(&mut out, '"');
    let mut i: usize = 0;
    assert(s@.subrange(0, 0) =~= Seq::<char>::empty());
    while i < cs.len()
        invariant
            cs@ == s@,
            i <= cs@.len(),
            out@ == seq!['"'] + json_escaped(s@.subrange(0, i as int)),
        decreases cs.len() - i,
    {
        let c = cs[i];
        push_json_char(&mut out, c);
        proof {
            let next = s@.subrange(0, i + 1);
            assert(next.drop_last() =~= s@.subrange(0, i as int));
            assert(next.last() == c);
        }
        i = i + 1;
    }
    assert(s@.subrange(0, s@.len() as int) =~= s@);
    push_char(&mut out, '"');
    out
}

/// The elements of a JSON list, as `serde_json` reads the text: for each
/// element, its fields (each name with the JSON text of its value) when it
/// is an object, `None` otherwise; or the message of the parse error when
/// the text is not a JSON list.
pub uninterp spec fn json_list_fields(s: Seq<char>) -> Result<Seq<Option<Seq<(Seq<char>, Seq<char>)>>>, Seq<char>>;

/// The characters of each element's fields.
pub open spec fn element_views(v: Seq<Option<Vec<(String, String)>>>) -> Seq<Option<Seq<(Seq<char>, Seq<char>)>>> {
    v.map_values(|e: Option<Vec<(String, String)>>| match e {
        Some(f) => Some(text_entries(f@)),
        None => None,
    })
}

/// `serde_json::from_str` of a list of values, then `as_object` of each,
/// its fields handed out with their values' JSON texts (`to_string`).
/// Trusted: the result depends on `s` alone and is named.
#[verifier::external_body]
pub(crate) fn read_json_list_fields(s: &str) -> (r: Result<Vec<Option<Vec<(String, String)>>>, String>)
    ensures
        match (r, json_list_fields(s@)) {
            (Ok(v), Ok(w)) => element_views(v@) == w,
            (Err(a), Err(b)) => a@ == b,
            _ => false,
        },
{
    match serde_json::from_str::<Vec<serde_json::Value>>(s) {
        Ok(items) => Ok(items
            .iter()
            .map(|item| item.as_object().map(|o| o.iter().map(|(k, v)| (k.clone(), v.to_string())).collect()))
            .collect()),
        Err(e) => Err(e.to_string()),
    }
}

/// What `serde_json` finds as the string at `field` of the JSON text
/// `raw`: `None` when `raw` is not JSON, has no such field, or the field
/// is not a string.
pub uninterp spec fn json_string_field(raw: Seq<char>, field: Seq<char>) -> Option<Seq<char>>;

/// `serde_json::from_str` of a JSON value, then `get(field)` and
/// `as_str()`. Trusted: the result depends on the two texts alone and is named.
#[verifier::external_body]
pub(crate) fn read_json_string_field(raw: &str, field: &str) -> (r: Option<String>)
    ensures
        opt_view(r) == json_string_field(raw@, field@),
{
    match serde_json::from_str::<serde_json::Value>(raw) {
        Ok(v) => v.get(field).and_then(|f| f.as_str()).map(|t| t.to_string()),
        Err(_) => None,
    }
}

} // verus!
