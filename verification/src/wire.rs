//! The wire text of outbound messages: small JSON objects, framed here.
//!
//! Every structured message leaves the engine as one JSON object whose
//! members stand in a fixed order. Member names are plain identifiers and are
//! written as they are; texts that come from users are quoted and escaped by
//! `serde_json`.

use vstd::prelude::*;
use vstd::string::*;

verus! {

/// The JSON string literal for `text`, quotes and escapes included.
pub uninterp spec fn json_quoted(text: Seq<char>) -> Seq<char>;

/// `serde_json::to_string` on a string slice: the result is the JSON string
/// literal for `text`. The serializer's answer is a `Result`, but its errors
/// are those of the value's own serializer, of a map with keys that are no
/// strings, and of the writer; a string slice written into a byte vector
/// meets none of them, so the answer is always a text.
#[verifier::external_body]
pub(crate) fn json_quote(text: &str) -> (literal: String)
    ensures
        literal@ == json_quoted(text@),
{
    match serde_json::to_string(text) {
        Ok(literal) => literal,
        Err(_) => String::new(),
    }
}

/// The text of an optional string.
pub open spec fn text_of(held: Option<String>) -> Option<Seq<char>> {
    match held {
        Some(text) => Some(text@),
        None => None,
    }
}

/// One member of an object: the name in quotes, a colon, the value as given.
pub open spec fn member(name: Seq<char>, value: Seq<char>) -> Seq<char> {
    seq!['"'] + name + seq!['"', ':'] + value
}

/// The object with two members, in this order. The values are JSON already.
pub open spec fn object_of_two(
    name_a: Seq<char>,
    value_a: Seq<char>,
    name_b: Seq<char>,
    value_b: Seq<char>,
) -> Seq<char> {
    seq!['{'] + member(name_a, value_a) + seq![','] + member(name_b, value_b) + seq!['}']
}

/// The object with three members, in this order. The values are JSON already.
pub open spec fn object_of_three(
    name_a: Seq<char>,
    value_a: Seq<char>,
    name_b: Seq<char>,
    value_b: Seq<char>,
    name_c: Seq<char>,
    value_c: Seq<char>,
) -> Seq<char> {
    seq!['{'] + member(name_a, value_a) + seq![','] + member(name_b, value_b) + seq![',']
        + member(name_c, value_c) + seq!['}']
}

/// The object with two members whose values are the texts `text_a` and
/// `text_b` as JSON strings.
pub open spec fn object_of_two_texts(
    name_a: Seq<char>,
    text_a: Seq<char>,
    name_b: Seq<char>,
    text_b: Seq<char>,
) -> Seq<char> {
    object_of_two(name_a, json_quoted(text_a), name_b, json_quoted(text_b))
}

/// Appends one member to `out`.
fn push_member(out: &mut String, name: &str, value: &str)
    ensures
        final(out)@ == old(out)@ + member(name@, value@),
{
    proof {
        reveal_strlit("\"");
        reveal_strlit("\":");
    }
    out.append("\"");
    out.append(name);
    out.append("\":");
    out.append(value);
    assert(final(out)@ =~= old(out)@ + member(name@, value@));
}

/// Frames two members as one object. The values are written as they are
/// given, so they must be JSON already.
pub fn two_member_object(name_a: &str, value_a: &str, name_b: &str, value_b: &str) -> (text:
    String)
    ensures
        text@ == object_of_two(name_a@, value_a@, name_b@, value_b@),
{
    proof {
        reveal_strlit("{");
        reveal_strlit(",");
        reveal_strlit("}");
    }
    let mut text = String::from_str("{");
    push_member(&mut text, name_a, value_a);
    text.append(",");
    push_member(&mut text, name_b, value_b);
    text.append("}");
    assert(text@ =~= object_of_two(name_a@, value_a@, name_b@, value_b@));
    text
}

/// Frames three members as one object. The values are written as they are
/// given, so they must be JSON already.
pub fn three_member_object(
    name_a: &str,
    value_a: &str,
    name_b: &str,
    value_b: &str,
    name_c: &str,
    value_c: &str,
) -> (text: String)
    ensures
        text@ == object_of_three(name_a@, value_a@, name_b@, value_b@, name_c@, value_c@),
{
    proof {
        reveal_strlit("{");
        reveal_strlit(",");
        reveal_strlit("}");
    }
    let mut text = String::from_str("{");
    push_member(&mut text, name_a, value_a);
    text.append(",");
    push_member(&mut text, name_b, value_b);
    text.append(",");
    push_member(&mut text, name_c, value_c);
    text.append("}");
    assert(text@ =~= object_of_three(name_a@, value_a@, name_b@, value_b@, name_c@, value_c@));
    text
}

/// The object with the two members `name_a` and `name_b`, whose values are
/// the texts `text_a` and `text_b` as JSON strings.
pub fn two_text_object(name_a: &str, text_a: &str, name_b: &str, text_b: &str) -> (text: String)
    ensures
        text@ == object_of_two_texts(name_a@, text_a@, name_b@, text_b@),
{
    let value_a = json_quote(text_a);
    let value_b = json_quote(text_b);
    two_member_object(name_a, value_a.as_str(), name_b, value_b.as_str())
}

} // verus!
