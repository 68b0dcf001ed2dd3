//! The closed set of failure kinds, their transport status codes and their
//! diagnostic texts.

use vstd::prelude::*;

use crate::codec::codec_error_text;

verus! {

/// Declares the codec's error type, so that values of it can be carried in
/// fields and results; the library never looks inside one.
#[verifier::external_type_specification]
#[verifier::external_body]
pub struct ExSerdeCborError(serde_cbor::Error);

/// Failure reported by the CBOR codec while encoding or decoding a value.
#[derive(Debug)]
pub struct CborError(pub serde_cbor::Error);

/// Everything that can go wrong while a request body is accepted and decoded.
#[derive(Debug)]
pub enum CborPayloadError {
    /// Payload size is bigger than allowed. (default: 32kB)
    Overflow,
    /// Content type error
    ContentType,
    /// Deserialize error
    Deserialize(CborError),
    /// Transport failure while the body was read, with its diagnostic text.
    Payload(String),
}

/// Default transport status for each failure kind: payload too large for an
/// overflow, bad request for everything else.
pub open spec fn spec_status_code(e: &CborPayloadError) -> u16 {
    match e {
        CborPayloadError::Overflow => 413,
        _ => 400,
    }
}

impl CborPayloadError {
    /// The transport status this failure maps to when no custom handler is
    /// installed.
    pub fn status_code(&self) -> (c: u16)
        ensures
            c == spec_status_code(self),
    {
        match self {
            CborPayloadError::Overflow => 413,
            _ => 400,
        }
    }

    /// Diagnostic text for this failure. A deserialize failure's text starts
    /// with its fixed prefix, followed by the codec's own diagnostic.
    pub fn message(&self) -> (r: String)
        ensures
            self is Overflow ==> r@ == "Cbor payload size is bigger than allowed"@,
            self is ContentType ==> r@ == "Content type error"@,
            self is Deserialize ==> r@.len() >= "CBOR deserialize error: "@.len() && r@.subrange(
                0,
                "CBOR deserialize error: "@.len() as int,
            ) == "CBOR deserialize error: "@,
            self matches CborPayloadError::Payload(m) ==> r@ == "Error that occur during reading payload: "@
                + m@,
    {
        match self {
            CborPayloadError::Overflow => String::from_str("Cbor payload size is bigger than allowed"),
            CborPayloadError::ContentType => String::from_str("Content type error"),
            CborPayloadError::Deserialize(inner) => {
                let text = String::from_str("CBOR deserialize error: ").concat(
                    codec_error_text(&inner.0).as_str(),
                );
                proof {
                    assert(text@.subrange(0, "CBOR deserialize error: "@.len() as int)
                        =~= "CBOR deserialize error: "@);
                }
                text
            },
            CborPayloadError::Payload(m) => String::from_str(
                "Error that occur during reading payload: ",
            ).concat(m.as_str()),
        }
    }
}

impl CborError {
    /// Encode failures on the response path map to an internal server error.
    pub fn status_code(&self) -> (c: u16)
        ensures
            c == 500,
    {
        500
    }

    /// Diagnostic text of the underlying codec failure.
    pub fn message(&self) -> String {
        codec_error_text(&self.0)
    }
}

impl From<CborError> for CborPayloadError {
    fn from(e: CborError) -> (r: Self) {
        CborPayloadError::Deserialize(e)
    }
}

impl vstd::std_specs::convert::FromSpecImpl<CborError> for CborPayloadError {
    open spec fn obeys_from_spec() -> bool {
        true
    }

    open spec fn from_spec(e: CborError) -> Self {
        CborPayloadError::Deserialize(e)
    }
}

impl From<serde_cbor::Error> for CborError {
    fn from(e: serde_cbor::Error) -> (r: Self) {
        CborError(e)
    }
}

impl vstd::std_specs::convert::FromSpecImpl<serde_cbor::Error> for CborError {
    open spec fn obeys_from_spec() -> bool {
        true
    }

    open spec fn from_spec(e: serde_cbor::Error) -> Self {
        CborError(e)
    }
}

impl From<serde_cbor::Error> for CborPayloadError {
    fn from(e: serde_cbor::Error) -> (r: Self) {
        CborPayloadError::Deserialize(CborError(e))
    }
}

impl vstd::std_specs::convert::FromSpecImpl<serde_cbor::Error> for CborPayloadError {
    open spec fn obeys_from_spec() -> bool {
        true
    }

    open spec fn from_spec(e: serde_cbor::Error) -> Self {
        CborPayloadError::Deserialize(CborError(e))
    }
}

} // verus!
