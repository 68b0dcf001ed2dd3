//! The pass-through to the CBOR codec: encoding and decoding of typed values.

use vstd::prelude::*;

use crate::error::CborError;

verus! {

/// Relies on serde_cbor::to_vec: serializes a value to a CBOR byte vector,
/// or reports the codec's own failure.
#[verifier::external_body]
pub(crate) fn encode_cbor<T: serde::Serialize>(value: &T) -> Result<Vec<u8>, CborError> {
    match serde_cbor::to_vec(value) {
        Ok(b) => Ok(b),
        Err(e) => Err(CborError(e)),
    }
}

/// Relies on serde_cbor::from_slice: decodes a typed value from CBOR bytes,
/// or reports the codec's own failure on malformed or mismatched input.
#[verifier::external_body]
pub(crate) fn decode_cbor<T: serde::de::DeserializeOwned>(bytes: &[u8]) -> Result<T, CborError> {
    match serde_cbor::from_slice::<T>(bytes) {
        Ok(v) => Ok(v),
        Err(e) => Err(CborError(e)),
    }
}

/// Relies on the Display implementation of serde_cbor::Error for the
/// diagnostic text of a codec failure.
#[verifier::external_body]
pub(crate) fn codec_error_text(e: &serde_cbor::Error) -> String {
    format!("{}", e)
}

} // verus!
