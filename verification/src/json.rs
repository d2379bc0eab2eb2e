//! Compact JSON text for the requests sent to the AI subprocess. String literals,
//! string arrays and numbers are written by `serde_json`; the request objects lay
//! them out under their keys in sorted order, as serde_json writes a map.

use vstd::prelude::*;
use crate::text::{decimal, hex_digit_char};

verus! {

broadcast use vstd::string::group_string_axioms;

/// The escaped form of one character inside a JSON string literal.
pub open spec fn json_escape_char(c: char) -> Seq<char> {
    if c == '"' {
        seq!['\\', '"']
    } else if c == '\\' {
        seq!['\\', '\\']
    } else if c == '\u{8}' {
        seq!['\\', 'b']
    } else if c == '\u{c}' {
        seq!['\\', 'f']
    } else if c == '\n' {
        seq!['\\', 'n']
    } else if c == '\r' {
        seq!['\\', 'r']
    } else if c == '\t' {
        seq!['\\', 't']
    } else if (c as u32) < 0x20 {
        seq![
            '\\',
            'u',
            '0',
            '0',
            hex_digit_char((c as u32 / 16) as nat),
            hex_digit_char((c as u32 % 16) as nat),
        ]
    } else {
        seq![c]
    }
}

/// The escaped form of a character sequence.
pub open spec fn json_escape(s: Seq<char>) -> Seq<char>
    decreases s.len(),
{
    if s.len() == 0 {
        Seq::empty()
    } else {
        json_escape(s.drop_last()) + json_escape_char(s.last())
    }
}

/// A JSON string literal holding `s`.
pub open spec fn json_string(s: Seq<char>) -> Seq<char> {
    seq!['"'] + json_escape(s) + seq!['"']
}

/// JSON string literals of `ss`, comma separated.
pub open spec fn json_string_list(ss: Seq<Seq<char>>) -> Seq<char>
    decreases ss.len(),
{
    if ss.len() == 0 {
        Seq::empty()
    } else if ss.len() == 1 {
        json_string(ss[0])
    } else {
        json_string_list(ss.drop_last()) + seq![','] + json_string(ss.last())
    }
}

/// A JSON array of string literals.
pub open spec fn json_string_array(ss: Seq<Seq<char>>) -> Seq<char> {
    seq!['['] + json_string_list(ss) + seq![']']
}

/// `serde_json::to_string` of a string slice: the string literal that serde_json's
/// compact writer produces, which escapes a quote, a backslash and the control
/// characters below U+0020 (`\b`, `\f`, `\n`, `\r`, `\t`, else `\u00` and two
/// lower-case hex digits) and writes every other character as it is. Serializing a
/// string into memory does not fail.
#[verifier::external_body]
fn json_string_literal(s: &str) -> (r: String)
    ensures
        r@ == json_string(s@),
{
    serde_json::to_string(s).unwrap_or_default()
}

/// `serde_json::to_string` of a slice of strings: `[`, the string literals separated
/// by commas, `]`, as serde_json's compact writer produces them.
#[verifier::external_body]
fn json_string_array_literal(ss: &[String]) -> (r: String)
    ensures
        r@ == json_string_array(string_seq_view(ss@)),
{
    serde_json::to_string(ss).unwrap_or_default()
}

/// `serde_json::to_string` of an unsigned integer: its shortest decimal digits.
#[verifier::external_body]
fn json_u32_literal(n: u32) -> (r: String)
    ensures
        r@ == decimal(n as nat),
{
    serde_json::to_string(&n).unwrap_or_default()
}

/// Appends a JSON string literal holding `s`.
pub fn push_json_string(out: &mut String, s: &str)
    ensures
        final(out)@ == old(out)@ + json_string(s@),
{
    let lit = json_string_literal(s);
    out.append(lit.as_str());
}

/// Views of a string sequence.
pub open spec fn string_seq_view(ss: Seq<String>) -> Seq<Seq<char>> {
    ss.map_values(|s: String| s@)
}

/// Appends a JSON array of the given strings.
pub fn push_json_string_array(out: &mut String, ss: &[String])
    ensures
        final(out)@ == old(out)@ + json_string_array(string_seq_view(ss@)),
{
    let lit = json_string_array_literal(ss);
    out.append(lit.as_str());
}

/// A JSON string literal holding `s`, or `null` when `s` is empty.
pub open spec fn json_string_or_null(s: Seq<char>) -> Seq<char> {
    if s.len() == 0 {
        "null"@
    } else {
        json_string(s)
    }
}

fn push_json_string_or_null(out: &mut String, s: &str)
    ensures
        final(out)@ == old(out)@ + json_string_or_null(s@),
{
    if s.is_empty() {
        out.append("null");
    } else {
        push_json_string(out, s);
    }
}

/// The request asking for tags of an image: method, parameters (candidate tags
/// when given, image path, model name or `null`, number of tags) and request id.
pub open spec fn tags_request_spec(
    request_id: Seq<char>,
    image_path: Seq<char>,
    model_name: Seq<char>,
    top_n: u32,
    candidates: Option<Seq<Seq<char>>>,
) -> Seq<char> {
    "{\"method\":\"generate_tags\",\"params\":{"@ + (match candidates {
        Some(c) => "\"candidate_tags\":"@ + json_string_array(c) + ","@,
        None => Seq::empty(),
    }) + "\"image_path\":"@ + json_string(image_path) + ",\"model_name\":"@
        + json_string_or_null(model_name) + ",\"top_n\":"@ + decimal(top_n as nat)
        + "},\"request_id\":"@ + json_string(request_id) + "}"@
}

/// The request asking for tags of an image.
pub fn tags_request(
    request_id: &str,
    image_path: &str,
    model_name: &str,
    top_n: u32,
    candidates: Option<&[String]>,
) -> (r: String)
    ensures
        r@ == tags_request_spec(
            request_id@,
            image_path@,
            model_name@,
            top_n,
            match candidates {
                Some(c) => Some(string_seq_view(c@)),
                None => None,
            },
        ),
{
    let mut out = String::from_str("{\"method\":\"generate_tags\",\"params\":{");
    match candidates {
        Some(c) => {
            out.append("\"candidate_tags\":");
            push_json_string_array(&mut out, c);
            out.append(",");
        },
        None => {},
    }
    out.append("\"image_path\":");
    push_json_string(&mut out, image_path);
    out.append(",\"model_name\":");
    push_json_string_or_null(&mut out, model_name);
    out.append(",\"top_n\":");
    let n = json_u32_literal(top_n);
    out.append(n.as_str());
    out.append("},\"request_id\":");
    push_json_string(&mut out, request_id);
    out.append("}");
    out
}

/// The request asking for an image embedding.
pub open spec fn embedding_request_spec(
    request_id: Seq<char>,
    image_path: Seq<char>,
    model_name: Seq<char>,
) -> Seq<char> {
    "{\"method\":\"generate_embedding\",\"params\":{\"image_path\":"@ + json_string(image_path)
        + ",\"model_name\":"@ + json_string_or_null(model_name) + "},\"request_id\":"@
        + json_string(request_id) + "}"@
}

/// The request asking for an image embedding.
pub fn embedding_request(request_id: &str, image_path: &str, model_name: &str) -> (r: String)
    ensures
        r@ == embedding_request_spec(request_id@, image_path@, model_name@),
{
    let mut out = String::from_str("{\"method\":\"generate_embedding\",\"params\":{\"image_path\":");
    push_json_string(&mut out, image_path);
    out.append(",\"model_name\":");
    push_json_string_or_null(&mut out, model_name);
    out.append("},\"request_id\":");
    push_json_string(&mut out, request_id);
    out.append("}");
    out
}

/// The liveness request.
pub open spec fn ping_request_spec(request_id: Seq<char>) -> Seq<char> {
    "{\"method\":\"ping\",\"params\":{},\"request_id\":"@ + json_string(request_id) + "}"@
}

/// The liveness request.
pub fn ping_request(request_id: &str) -> (r: String)
    ensures
        r@ == ping_request_spec(request_id@),
{
    let mut out = String::from_str("{\"method\":\"ping\",\"params\":{},\"request_id\":");
    push_json_string(&mut out, request_id);
    out.append("}");
    out
}

/// Text without quotes, backslashes or control characters is written as it is.
pub proof fn lemma_escape_plain(s: Seq<char>)
    requires
        forall|i: int|
            0 <= i < s.len() ==> s[i] != '"' && s[i] != '\\' && (s[i] as u32) >= 0x20,
    ensures
        json_escape(s) == s,
    decreases s.len(),
{
    if s.len() > 0 {
        lemma_escape_plain(s.drop_last());
        assert(json_escape(s.drop_last()) + seq![s.last()] =~= s);
    }
}

} // verus!
