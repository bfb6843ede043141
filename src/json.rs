use vstd::prelude::*;

verus! {

/// Whether `serde_json` reads the bytes as one JSON value.
pub uninterp spec fn is_json_text(bytes: Seq<u8>) -> bool;

/// Relies on `serde_json::from_slice` into `serde_json::Value`: a value where
/// the bytes are JSON text, an error where they are not.
#[verifier::external_body]
pub(crate) fn parse_value(bytes: &[u8]) -> (r: Result<serde_json::Value, serde_json::Error>)
    ensures
        r is Ok <==> is_json_text(bytes@),
{
    serde_json::from_slice(bytes)
}

/// Relies on `serde_json::from_slice` into `T`: what `T`'s `Deserialize`
/// makes of the bytes.
#[verifier::external_body]
pub(crate) fn decode<T: serde::de::DeserializeOwned>(bytes: &[u8]) -> (r: Result<T, serde_json::Error>) {
    serde_json::from_slice::<T>(bytes)
}

} // verus!
