//! Encoding a list of identifiers as a JSON array of strings.
use vstd::prelude::*;

use crate::error::RequestError;
use crate::validate::{is_slug, str_views};

verus! {

/// `serde_json::Error`, the error that `serde_json::to_string` may return;
/// it is only carried, never looked into.
#[verifier::external_type_specification]
#[verifier::external_body]
pub struct ExJsonError(serde_json::Error);

/// A text that JSON writes as it is between quotes: no `"`, no `\` and no
/// control character below U+0020.
pub open spec fn needs_no_escape(s: Seq<char>) -> bool {
    forall|i: int|
        0 <= i < s.len() ==> #[trigger] s[i] != '"' && s[i] != '\\' && (s[i] as u32) >= 32
}

/// A JSON string literal for a text that needs no escape.
pub open spec fn json_string(s: Seq<char>) -> Seq<char> {
    seq!['"'] + s + seq!['"']
}

/// The string literals of `items`, separated by `,`.
pub open spec fn json_items(items: Seq<Seq<char>>) -> Seq<char>
    decreases items.len(),
{
    if items.len() == 0 {
        seq![]
    } else if items.len() == 1 {
        json_string(items[0])
    } else {
        json_items(items.drop_last()) + seq![','] + json_string(items.last())
    }
}

/// The compact JSON array of the strings `items`.
pub open spec fn json_string_array(items: Seq<Seq<char>>) -> Seq<char> {
    seq!['['] + json_items(items) + seq![']']
}

/// Relies on `serde_json::to_string` on a slice of string slices: the compact
/// formatter writes `[`, the items separated by `,`, and `]`; each item is
/// written between `"` with only `"`, `\` and control characters escaped.
/// It cannot fail here: it writes into a `Vec`, which gives no I/O error, and
/// a string slice serializes without error.
#[verifier::external_body]
fn to_json_string_array(items: &[&str]) -> (r: Result<String, serde_json::Error>)
    requires
        forall|i: int| 0 <= i < items@.len() ==> needs_no_escape(#[trigger] items@[i]@),
    ensures
        r is Ok,
        r matches Ok(s) ==> s@ == json_string_array(str_views(items@)),
{
    serde_json::to_string(items)
}

/// The JSON array of `ids`, each of which is a valid id or slug.
pub fn ids_to_json(ids: &[&str]) -> (r: Result<String, RequestError>)
    requires
        forall|i: int| 0 <= i < ids@.len() ==> is_slug(#[trigger] ids@[i]@),
    ensures
        r matches Ok(s) && s@ == json_string_array(str_views(ids@)),
{
    assert forall|i: int| 0 <= i < ids@.len() implies needs_no_escape(#[trigger] ids@[i]@) by {
        let s = ids@[i]@;
        assert forall|j: int| 0 <= j < s.len() implies #[trigger] s[j] != '"' && s[j] != '\\'
            && (s[j] as u32) >= 32 by {
            assert(is_slug(s));
            assert(crate::validate::is_slug_char(s[j]));
        }
    }
    match to_json_string_array(ids) {
        Ok(s) => Ok(s),
        Err(_) => Err(RequestError::JsonEncode),
    }
}

} // verus!
