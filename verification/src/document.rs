use vstd::prelude::*;

verus! {

/// A structured document: `serde_json::Value`. The library carries such a
/// value through and never looks inside.
#[verifier::external_type_specification]
#[verifier::external_body]
pub struct ExValue(serde_json::Value);

/// What `serde_json::from_str` makes of a text when it is asked for a
/// `serde_json::Value`: the document that the text spells, or the message of
/// the parser's error.
pub uninterp spec fn json_reading(text: Seq<char>) -> Result<serde_json::Value, Seq<char>>;

/// Calls `serde_json::from_str` for a `serde_json::Value`, and prints an error
/// through its `Display` impl. Trusted: the outcome depends on the text alone,
/// so it is `json_reading` of the text.
#[verifier::external_body]
pub(crate) fn read_json(text: &str) -> (reading: Result<serde_json::Value, String>)
    ensures
        match reading {
            Ok(document) => json_reading(text@) == Ok::<serde_json::Value, Seq<char>>(document),
            Err(cause) => json_reading(text@) == Err::<serde_json::Value, Seq<char>>(cause@),
        },
{
    match serde_json::from_str(text) {
        Ok(document) => Ok(document),
        Err(error) => Err(error.to_string()),
    }
}

} // verus!
