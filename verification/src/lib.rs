//! CBOR extractor and responder support for an HTTP host framework.
//!
//! The crate accepts a request body encoded in CBOR, enforces a size limit
//! while the body is accumulated chunk by chunk, negotiates the declared
//! content type, and decodes the accumulated bytes into a typed value; the
//! response path encodes a typed value and tags it with the CBOR content
//! type and a success status.
//!
//! The host hands the library plain values — the declared content type, the
//! declared length, and the body's chunks — and takes plain values back: a
//! typed value, or a status code and body to reply with.

use vstd::prelude::*;

pub mod body;
mod codec;
pub mod config;
pub mod error;
pub mod headers;
pub mod negotiate;

pub use body::CborBody;
pub use config::CborConfig;
pub use error::CborError;
pub use error::CborPayloadError;

use crate::body::AccOutcome;
use crate::body::events_view;
use crate::body::spec_accumulate;
use crate::config::ContentTypePredicate;
use crate::config::ErrorHandler;
use crate::config::ErrorResponse;
use crate::config::render_error;

verus! {

/// Success reply on the response path: encoded bytes tagged with the CBOR
/// content type and the success status.
pub struct CborResponse {
    pub status: u16,
    pub content_type: String,
    pub body: Vec<u8>,
}

/// The success reply around an already encoded body: success status, the
/// CBOR content type, and the body byte for byte.
pub fn cbor_response(body: Vec<u8>) -> (r: CborResponse)
    ensures
        r.status == 200,
        r.content_type@ == "application/cbor"@,
        r.body@ == body@,
{
    CborResponse { status: 200, content_type: String::from_str("application/cbor"), body }
}

/// Extractor/responder envelope for CBOR encoded data.
///
/// Wraps exactly one value of the target type.
pub struct Cbor<T>(pub T);

impl<T> Cbor<T> {
    /// Deconstruct to an inner value.
    pub fn into_inner(self) -> (r: T)
        ensures
            r == self.0,
    {
        self.0
    }
}

impl<T: serde::Serialize> Cbor<T> {
    /// Encode the wrapped value; on success the reply carries the encoder's
    /// bytes unchanged, tagged with the success status and the CBOR content
    /// type. A codec failure is reported as is, for the host to map to an
    /// internal error.
    pub fn respond(self) -> (r: Result<CborResponse, CborError>)
        ensures
            r matches Ok(resp) ==> resp.status == 200 && resp.content_type@
                == "application/cbor"@,
    {
        match codec::encode_cbor(&self.0) {
            Ok(body) => Ok(cbor_response(body)),
            Err(e) => Err(e),
        }
    }
}

/// Inbound extraction: negotiate the declared content type under the
/// configuration's predicate, check the declared length against its limit,
/// accumulate the body's chunks under that limit, decode, and map any failure
/// through the configured error handler (or the default status mapping).
pub fn extract<T: serde::de::DeserializeOwned, P: ContentTypePredicate, H: ErrorHandler>(
    config: &CborConfig<P, H>,
    mime: &str,
    content_length: Option<usize>,
    events: Vec<Result<Vec<u8>, String>>,
) -> (r: Result<Cbor<T>, ErrorResponse>)
    ensures
        !config.spec_accepts_mime(mime@) ==> (r matches Err(resp) && resp.status
            == config.spec_error_status(&CborPayloadError::ContentType) && resp.body@
            == config.spec_error_body(&CborPayloadError::ContentType)),
        config.spec_accepts_mime(mime@) && (content_length matches Some(n) && n > config.limit)
            ==> (r matches Err(resp) && resp.status == config.spec_error_status(
            &CborPayloadError::Overflow,
        ) && resp.body@ == config.spec_error_body(&CborPayloadError::Overflow)),
        config.spec_accepts_mime(mime@) && !(content_length matches Some(n) && n > config.limit)
            ==> (match spec_accumulate(config.limit as nat, Seq::empty(), events_view(events@)) {
            AccOutcome::TooLarge => r matches Err(resp) && resp.status
                == config.spec_error_status(&CborPayloadError::Overflow) && resp.body@
                == config.spec_error_body(&CborPayloadError::Overflow),
            AccOutcome::Upstream(m) => r matches Err(resp) && (exists|e: CborPayloadError|
                (#[trigger] config.spec_error_status(&e) == resp.status) && (e
                    matches CborPayloadError::Payload(s) && s@ == m) && resp.body@
                    == config.spec_error_body(&e)),
            AccOutcome::Complete(bytes) => r matches Err(resp) ==> exists|e: CborPayloadError|
                (#[trigger] config.spec_error_status(&e) == resp.status) && e is Deserialize
                    && resp.body@ == config.spec_error_body(&e),
        }),
{
    let limit = config.limit;
    let acc = CborBody::new(mime, config.content_type.as_ref(), content_length).limit(limit);
    match acc.run::<T>(events) {
        Ok(v) => Ok(Cbor(v)),
        Err(e) => {
            let resp = render_error(config.err_handler.as_ref(), &e);
            proof {
                assert(resp.status == config.spec_error_status(&e));
                assert(resp.body@ == config.spec_error_body(&e));
            }
            Err(resp)
        },
    }
}

} // verus!
