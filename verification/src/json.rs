//! What this library takes from `serde_json`: the type of a decoded document,
//! which it only carries, and the parser's verdict on a text.

use vstd::prelude::*;

verus! {

/// `serde_json::Value`, a decoded JSON document. Nothing is known of its
/// contents here; the library hands such values through untouched.
#[verifier::external_type_specification]
#[verifier::external_body]
pub struct ExJsonValue(serde_json::Value);

/// What `serde_json::from_str` has to say against `text` as one JSON
/// document: nothing where it accepts the text, otherwise its error as the
/// error displays itself.
pub uninterp spec fn json_complaint(text: Seq<char>) -> Option<Seq<char>>;

/// Whether `serde_json::from_str` accepts `text` as one JSON document.
pub open spec fn well_formed_json(text: Seq<char>) -> bool {
    json_complaint(text) is None
}

/// Calls `serde_json::from_str` to decode `text` as a `serde_json::Value`,
/// drops the value, and renders the error, if there is one, through its
/// `Display` impl. Assumed, not proved: verdict and wording depend on the
/// text alone, and are the ones that `json_complaint` names.
#[verifier::external_body]
pub(crate) fn complaint_about(text: &str) -> (r: Option<String>)
    ensures
        r is Some <==> json_complaint(text@) is Some,
        r is Some ==> r->Some_0@ == json_complaint(text@)->Some_0,
{
    serde_json::from_str::<serde_json::Value>(text).err().map(|error| error.to_string())
}

} // verus!
