use vstd::prelude::*;

verus! {

#[verifier::external_type_specification]
#[verifier::external_body]
pub struct ExValue(serde_json::Value);

#[verifier::external_type_specification]
#[verifier::external_body]
pub struct ExError(serde_json::Error);

/// Whether a string is a JSON document that serde_json's parser accepts
/// (its recursion-depth limit included); a function of the characters alone.
pub uninterp spec fn json_ok(s: Seq<char>) -> bool;

/// Relies on serde_json::from_str::<Value>: parsing succeeds exactly on the
/// strings the parser accepts, and the outcome depends on the string alone.
#[verifier::external_body]
pub(crate) fn parse_value(s: &str) -> (r: Result<serde_json::Value, serde_json::Error>)
    ensures
        (r is Ok) == json_ok(s@),
{
    serde_json::from_str::<serde_json::Value>(s)
}

} // verus!
