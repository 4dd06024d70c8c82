//! Text and wire formats that the handlers read and write: UTF-8, form
//! bodies and JSON. The formats themselves are the work of `std`, `url` and
//! `serde_json`; what they give for an input is known here by name.

use std::collections::BTreeMap;
use vstd::prelude::*;
use vstd::utf8::*;

verus! {

/// The error of `serde_json`. Nothing is read from it.
#[verifier::external_type_specification]
#[verifier::external_body]
pub struct ExJsonError(serde_json::Error);

/// The pairs that `url::form_urlencoded::parse` reads from a form body, names
/// and values decoded, in the order of the body.
pub uninterp spec fn form_pairs(body: Seq<u8>) -> Seq<(Seq<char>, Seq<char>)>;

/// The object that `serde_json::from_str` reads from a text whose members are
/// arrays of strings: its members in the order of their names, each name
/// once. `None` where the text is no such object.
pub uninterp spec fn json_bag(text: Seq<char>) -> Option<Seq<(Seq<char>, Seq<Seq<char>>)>>;

/// The text that `serde_json::to_string` writes for an object with the given
/// members, each a number, or `None` where it fails.
pub uninterp spec fn json_object_text(members: Seq<(Seq<char>, usize)>) -> Option<Seq<char>>;

/// The text that `serde_json::to_string_pretty` writes for an array of objects
/// with the given members, each a string, or `None` where it fails.
pub uninterp spec fn json_array_pretty(rows: Seq<Seq<(Seq<char>, Seq<char>)>>) -> Option<
    Seq<char>,
>;

/// `std::str::from_utf8`: the bytes as text, where they are valid UTF-8. The
/// text is the same bytes, so it encodes to them.
#[verifier::external_body]
pub(crate) fn utf8_text(bytes: &[u8]) -> (text: Option<&str>)
    ensures
        text is Some <==> valid_utf8(bytes@),
        text matches Some(decoded) ==> encode_utf8(decoded@) == bytes@,
{
    std::str::from_utf8(bytes).ok()
}

/// `url::form_urlencoded::parse`, collected: the pairs of a form body. An
/// empty body has none.
#[verifier::external_body]
pub(crate) fn parse_form(body: &[u8]) -> (pairs: Vec<(String, String)>)
    ensures
        pairs.deep_view() == form_pairs(body@),
        body@.len() == 0 ==> pairs@.len() == 0,
{
    url::form_urlencoded::parse(body).into_owned().collect()
}

/// `serde_json::from_str` into a map from names to lists of strings, handed
/// out as its entries in the order of their names.
#[verifier::external_body]
pub(crate) fn parse_bag(text: &str) -> (parsed: Result<
    Vec<(String, Vec<String>)>,
    serde_json::Error,
>)
    ensures
        match parsed {
            Ok(entries) => json_bag(text@) == Some(entries.deep_view()),
            Err(_) => json_bag(text@) is None,
        },
{
    serde_json::from_str::<BTreeMap<String, Vec<String>>>(text).map(
        |object| object.into_iter().collect(),
    )
}

/// `serde_json::to_string` on an object that holds the given members, in
/// their order, each as a number.
#[verifier::external_body]
pub(crate) fn write_object(members: &Vec<(String, usize)>) -> (written: Result<
    String,
    serde_json::Error,
>)
    ensures
        match written {
            Ok(text) => json_object_text(members.deep_view()) == Some(text@),
            Err(_) => json_object_text(members.deep_view()) is None,
        },
{
    let mut object = serde_json::Map::new();
    for (name, number) in members.iter() {
        object.insert(name.clone(), serde_json::Value::from(*number));
    }
    serde_json::to_string(&object)
}

/// `serde_json::to_string_pretty` on an array of objects, one for each row,
/// that hold the row's members, in their order, each as a string.
#[verifier::external_body]
pub(crate) fn write_rows_pretty(rows: &Vec<Vec<(String, String)>>) -> (written: Result<
    String,
    serde_json::Error,
>)
    ensures
        match written {
            Ok(text) => json_array_pretty(rows.deep_view()) == Some(text@),
            Err(_) => json_array_pretty(rows.deep_view()) is None,
        },
{
    let mut array: Vec<serde_json::Map<String, serde_json::Value>> = Vec::new();
    for row in rows.iter() {
        let mut object = serde_json::Map::new();
        for (name, value) in row.iter() {
            object.insert(name.clone(), serde_json::Value::from(value.clone()));
        }
        array.push(object);
    }
    serde_json::to_string_pretty(&array)
}

/// True when the two slices hold the same bytes.
pub fn same_bytes(left: &[u8], right: &[u8]) -> (same: bool)
    ensures
        same == (left@ == right@),
{
    if left.len() != right.len() {
        return false;
    }
    let mut i: usize = 0;
    while i < left.len()
        invariant
            i <= left.len(),
            left.len() == right.len(),
            left@.subrange(0, i as int) == right@.subrange(0, i as int),
        decreases left.len() - i,
    {
        if left[i] != right[i] {
            return false;
        }
        proof {
            assert(left@.subrange(0, i + 1) == left@.subrange(0, i as int).push(left@[i as int]));
            assert(right@.subrange(0, i + 1) == right@.subrange(0, i as int).push(
                right@[i as int],
            ));
        }
        i = i + 1;
    }
    proof {
        assert(left@ == left@.subrange(0, i as int));
        assert(right@ == right@.subrange(0, i as int));
    }
    true
}

/// True when the two texts are the same.
pub fn same_text(left: &str, right: &str) -> (same: bool)
    ensures
        same == (left@ == right@),
{
    proof {
        encode_utf8_decode_utf8(left@);
        encode_utf8_decode_utf8(right@);
    }
    same_bytes(left.as_bytes(), right.as_bytes())
}

} // verus!
