//! Pretty-printed JSON, as `serde_json` writes it.
//!
//! The text of a manifest is given a name here, and each call states that
//! its result is the named text. Nothing in this file is proved.

use vstd::prelude::*;

verus! {

/// The error of `serde_json`. Nothing is read from it.
#[verifier::external_type_specification]
#[verifier::external_body]
pub struct ExJsonError(serde_json::Error);

/// The text that `serde_json::to_string_pretty` gives for an array of the
/// strings `items`; `None` where it fails.
pub uninterp spec fn json_pretty_strings(items: Seq<Seq<char>>) -> Option<Seq<char>>;

/// The text that `serde_json::to_string_pretty` gives for an array with one
/// object for each of `rows`, in order. The object of a row is an empty
/// object into which the first string of the row was inserted under
/// `first_key`, and then the second under `second_key`. `None` where it
/// fails.
pub uninterp spec fn json_pretty_objects(
    first_key: Seq<char>,
    second_key: Seq<char>,
    rows: Seq<(Seq<char>, Seq<char>)>,
) -> Option<Seq<char>>;

/// Calls `serde_json::to_string_pretty` on `items`.
///
/// Believed: the result is the named text of the array of these strings,
/// and `Err` where there is none.
#[verifier::external_body]
pub(crate) fn pretty_strings(items: &Vec<String>) -> (text: Result<String, serde_json::Error>)
    ensures
        text matches Ok(written) ==> json_pretty_strings(items.deep_view()) == Some(written@),
        text is Err ==> json_pretty_strings(items.deep_view()) is None,
{
    serde_json::to_string_pretty(items)
}

/// Makes one JSON object of two string members for each row, and calls
/// `serde_json::to_string_pretty` on the array of them.
///
/// Believed: the result is the named text of that array, and `Err` where
/// there is none.
#[verifier::external_body]
pub(crate) fn pretty_objects(first_key: &str, second_key: &str, rows: &Vec<(String, String)>) -> (text:
    Result<String, serde_json::Error>)
    ensures
        text matches Ok(written) ==> json_pretty_objects(
            first_key@,
            second_key@,
            rows.deep_view(),
        ) == Some(written@),
        text is Err ==> json_pretty_objects(first_key@, second_key@, rows.deep_view()) is None,
{
    let mut list: Vec<serde_json::Value> = Vec::new();
    for row in rows.iter() {
        let mut object = serde_json::Map::new();
        object.insert(first_key.to_string(), serde_json::Value::String(row.0.clone()));
        object.insert(second_key.to_string(), serde_json::Value::String(row.1.clone()));
        list.push(serde_json::Value::Object(object));
    }
    serde_json::to_string_pretty(&list)
}

} // verus!
