//! Lists stored as JSON text, read and written by `serde_json`.

use vstd::prelude::*;

verus! {

/// The list of UUIDs `serde_json::from_str::<Vec<Uuid>>` reads from a
/// text, or `None` where it refuses the text.
pub uninterp spec fn json_uuid_list(text: Seq<char>) -> Option<Seq<u128>>;

/// The text `serde_json::to_string` writes for a list of UUIDs.
pub uninterp spec fn uuid_list_json(ids: Seq<u128>) -> Seq<char>;

/// The list of strings `serde_json::from_str::<Vec<String>>` reads from a
/// text, or `None` where it refuses the text.
pub uninterp spec fn json_string_list(text: Seq<char>) -> Option<Seq<Seq<char>>>;

/// The text `serde_json::to_string` writes for a list of strings.
pub uninterp spec fn string_list_json(items: Seq<Seq<char>>) -> Seq<char>;

/// The views of a list of strings.
pub open spec fn texts(items: Seq<String>) -> Seq<Seq<char>> {
    items.map_values(|s: String| s@)
}

/// `serde_json::from_str::<Vec<Uuid>>`: the UUIDs a JSON array of UUID
/// strings holds, or `None` where the text is no such array.
#[verifier::external_body]
pub(crate) fn parse_uuid_list(text: &str) -> (r: Option<Vec<u128>>)
    ensures
        match r {
            Some(ids) => json_uuid_list(text@) == Some(ids@),
            None => json_uuid_list(text@) is None,
        },
{
    match serde_json::from_str::<Vec<uuid::Uuid>>(text) {
        Ok(ids) => Some(ids.into_iter().map(|id| id.as_u128()).collect()),
        Err(_) => None,
    }
}

/// `serde_json::to_string` of a list of UUIDs: a JSON array of their
/// hyphenated texts, which `from_str` reads back as the same list. Writing
/// such a list does not fail.
#[verifier::external_body]
pub(crate) fn uuid_list_to_json(ids: &Vec<u128>) -> (r: String)
    ensures
        r@ == uuid_list_json(ids@),
        json_uuid_list(r@) == Some(ids@),
{
    let list: Vec<uuid::Uuid> = ids.iter().map(|id| uuid::Uuid::from_u128(*id)).collect();
    serde_json::to_string(&list).unwrap_or_default()
}

/// `serde_json::from_str::<Vec<String>>`: the strings a JSON array of
/// strings holds, or `None` where the text is no such array.
#[verifier::external_body]
pub(crate) fn parse_string_list(text: &str) -> (r: Option<Vec<String>>)
    ensures
        match r {
            Some(items) => json_string_list(text@) == Some(texts(items@)),
            None => json_string_list(text@) is None,
        },
{
    match serde_json::from_str::<Vec<String>>(text) {
        Ok(items) => Some(items),
        Err(_) => None,
    }
}

/// `serde_json::to_string` of a list of strings: a JSON array of them,
/// which `from_str` reads back as the same list. Writing such a list does
/// not fail.
#[verifier::external_body]
pub(crate) fn string_list_to_json(items: &Vec<String>) -> (r: String)
    ensures
        r@ == string_list_json(texts(items@)),
        json_string_list(r@) == Some(texts(items@)),
{
    serde_json::to_string(items).unwrap_or_default()
}

} // verus!
