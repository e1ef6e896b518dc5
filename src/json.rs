//! The JSON values that the gateway relays, and the calls into serde_json
//! that read and quote them.
use vstd::prelude::*;

verus! {

/// A parsed JSON document, relayed without being inspected.
#[verifier::external_type_specification]
#[verifier::external_body]
pub struct ExValue(serde_json::Value);

/// What serde_json reads from the bytes: the document, or the text of its
/// error when it rejects them.
pub uninterp spec fn json_parse(b: Seq<u8>) -> Result<serde_json::Value, Seq<char>>;

/// The JSON string literal that serde_json writes for a text, quotes and
/// escapes included.
pub uninterp spec fn json_quoted(s: Seq<char>) -> Seq<char>;

/// Relies on `serde_json::from_slice::<serde_json::Value>`: it accepts or
/// rejects the bytes alone, and on rejection its error renders as text.
#[verifier::external_body]
pub(crate) fn parse_value(b: &[u8]) -> (r: Result<serde_json::Value, String>)
    ensures
        r is Ok <==> json_parse(b@) is Ok,
        r matches Ok(v) ==> json_parse(b@)->Ok_0 == v,
        r matches Err(e) ==> json_parse(b@)->Err_0 == e@,
{
    serde_json::from_slice::<serde_json::Value>(b).map_err(|e| e.to_string())
}

/// Relies on `serde_json::to_string` on a `str`: it writes the escaped string
/// literal into a `Vec<u8>`, a writer that never fails, so it returns `Ok`.
#[verifier::external_body]
pub(crate) fn quote(s: &str) -> (r: String)
    ensures
        r@ == json_quoted(s@),
{
    serde_json::to_string(s).unwrap_or_default()
}

} // verus!
