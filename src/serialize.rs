//! The JSON text of a payment method.
use vstd::prelude::*;
use crate::json::{decoded_json_string, parse_json_string, quoted};

verus! {

/// Reads the JSON text of a payment method out of `stringified`, the JSON
/// string literal that holds it (the payment method object stringified, then
/// that text stringified once more). Fails where `stringified` is no JSON
/// string; where it is the literal of a text, the result is that text,
/// unquoted and unchanged.
pub fn payment_method_to_string(stringified: &str) -> (r: Result<String, serde_json::Error>)
    ensures
        r is Ok <==> decoded_json_string(stringified@) is Some,
        r is Ok ==> Some(r->Ok_0@) == decoded_json_string(stringified@),
        forall|text: Seq<char>| stringified@ == quoted(text) ==> r is Ok && r->Ok_0@ == text,
{
    parse_json_string(stringified)
}

} // verus!
