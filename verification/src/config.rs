//! Per-route configuration: the size limit, the optional content-type
//! predicate and the optional error handler, with fluent builders.

use vstd::prelude::*;

use crate::error::CborPayloadError;
use crate::error::spec_status_code;
use crate::negotiate::is_cbor_mime;
use crate::negotiate::str_eq;

verus! {

/// Capability deciding whether a declared content type is acceptable; it
/// extends the default negotiation rule.
pub trait ContentTypePredicate {
    /// What the predicate accepts.
    spec fn spec_accepts(&self, mime: Seq<char>) -> bool;

    /// Decide on one declared content type.
    fn accepts(&self, mime: &str) -> (r: bool)
        ensures
            r == self.spec_accepts(mime@),
    ;
}

/// Placeholder predicate for a configuration without a custom rule; accepts
/// nothing, leaving the default rule alone in force.
pub struct NoPredicate;

impl ContentTypePredicate for NoPredicate {
    open spec fn spec_accepts(&self, mime: Seq<char>) -> bool {
        false
    }

    fn accepts(&self, mime: &str) -> (r: bool) {
        false
    }
}

/// Predicate that accepts exactly one declared content type.
pub struct ExactMime {
    pub mime: String,
}

impl ExactMime {
    /// A predicate accepting exactly the given content type.
    pub fn new(mime: String) -> (r: Self)
        ensures
            r.mime == mime,
    {
        ExactMime { mime }
    }
}

impl ContentTypePredicate for ExactMime {
    open spec fn spec_accepts(&self, mime: Seq<char>) -> bool {
        mime == self.mime@
    }

    fn accepts(&self, mime: &str) -> (r: bool) {
        str_eq(mime, self.mime.as_str())
    }
}

/// A transport-level error reply: a status code and a body.
pub struct ErrorResponse {
    pub status: u16,
    pub body: Vec<u8>,
}

/// Capability that turns a failure into the transport-level reply to send in
/// place of the default status mapping; its output is used verbatim.
pub trait ErrorHandler {
    /// The status the handler replies with for a given failure.
    spec fn handled_status(&self, err: &CborPayloadError) -> u16;

    /// The body the handler replies with for a given failure.
    spec fn handled_body(&self, err: &CborPayloadError) -> Seq<u8>;

    /// Build the reply for one failure.
    fn handle(&self, err: &CborPayloadError) -> (r: ErrorResponse)
        ensures
            r.status == self.handled_status(err),
            r.body@ == self.handled_body(err),
    ;
}

/// Placeholder handler for a configuration without a custom one; it answers
/// exactly as the default mapping does: the failure's status and an empty
/// body.
pub struct NoHandler;

impl ErrorHandler for NoHandler {
    open spec fn handled_status(&self, err: &CborPayloadError) -> u16 {
        spec_status_code(err)
    }

    open spec fn handled_body(&self, err: &CborPayloadError) -> Seq<u8> {
        Seq::empty()
    }

    fn handle(&self, err: &CborPayloadError) -> (r: ErrorResponse) {
        ErrorResponse { status: err.status_code(), body: Vec::new() }
    }
}

/// Handler that replies with one fixed response, whatever the failure.
pub struct StaticResponse {
    pub status: u16,
    pub body: Vec<u8>,
}

impl ErrorHandler for StaticResponse {
    open spec fn handled_status(&self, err: &CborPayloadError) -> u16 {
        self.status
    }

    open spec fn handled_body(&self, err: &CborPayloadError) -> Seq<u8> {
        self.body@
    }

    fn handle(&self, err: &CborPayloadError) -> (r: ErrorResponse) {
        let mut body: Vec<u8> = Vec::new();
        body.extend_from_slice(self.body.as_slice());
        assert(body@ =~= self.body@);
        ErrorResponse { status: self.status, body }
    }
}

/// Resolved per-request configuration: the size limit, the optional
/// content-type predicate and the optional error handler.
pub struct CborConfig<P, H> {
    pub limit: usize,
    pub err_handler: Option<H>,
    pub content_type: Option<P>,
}

/// The limit the shared default configuration carries.
pub const DEFAULT_LIMIT: usize = 32768;

impl CborConfig<NoPredicate, NoHandler> {
    /// The default configuration: a 32kB limit, no predicate, no handler.
    pub fn new() -> (r: Self)
        ensures
            r.limit == DEFAULT_LIMIT,
            r.err_handler is None,
            r.content_type is None,
    {
        CborConfig { limit: DEFAULT_LIMIT, err_handler: None, content_type: None }
    }
}

impl Default for CborConfig<NoPredicate, NoHandler> {
    /// Same as `CborConfig::new`.
    fn default() -> (r: Self)
        ensures
            r.limit == DEFAULT_LIMIT,
            r.err_handler is None,
            r.content_type is None,
    {
        CborConfig::new()
    }
}

impl<P, H> CborConfig<P, H> {
    /// Change max size of payload. By default max size is 32Kb.
    pub fn limit(self, limit: usize) -> (r: Self)
        ensures
            r.limit == limit,
            r.err_handler == self.err_handler,
            r.content_type == self.content_type,
    {
        CborConfig { limit, err_handler: self.err_handler, content_type: self.content_type }
    }

    /// Set custom error handler.
    pub fn error_handler<H2: ErrorHandler>(self, f: H2) -> (r: CborConfig<P, H2>)
        ensures
            r.limit == self.limit,
            r.err_handler == Some(f),
            r.content_type == self.content_type,
    {
        CborConfig { limit: self.limit, err_handler: Some(f), content_type: self.content_type }
    }

    /// Set predicate for allowed content types.
    pub fn content_type<P2: ContentTypePredicate>(self, predicate: P2) -> (r: CborConfig<P2, H>)
        ensures
            r.limit == self.limit,
            r.err_handler == self.err_handler,
            r.content_type == Some(predicate),
    {
        CborConfig { limit: self.limit, err_handler: self.err_handler, content_type: Some(predicate) }
    }
}

impl<P: ContentTypePredicate, H> CborConfig<P, H> {
    /// Whether this configuration accepts a declared content type: the
    /// default rule, extended by the installed predicate when there is one.
    pub open spec fn spec_accepts_mime(&self, m: Seq<char>) -> bool {
        is_cbor_mime(m) || (self.content_type matches Some(p) && p.spec_accepts(m))
    }
}

impl<P, H: ErrorHandler> CborConfig<P, H> {
    /// The status this configuration replies with for a failure: the
    /// installed handler's, or the default mapping.
    pub open spec fn spec_error_status(&self, e: &CborPayloadError) -> u16 {
        match self.err_handler {
            Some(h) => h.handled_status(e),
            None => spec_status_code(e),
        }
    }

    /// The body this configuration replies with for a failure: the installed
    /// handler's, or an empty one.
    pub open spec fn spec_error_body(&self, e: &CborPayloadError) -> Seq<u8> {
        match self.err_handler {
            Some(h) => h.handled_body(e),
            None => Seq::empty(),
        }
    }
}

/// The reply for one failure: the installed handler's output verbatim when a
/// handler is present, the default status with an empty body otherwise.
pub fn render_error<H: ErrorHandler>(handler: Option<&H>, err: &CborPayloadError) -> (r:
    ErrorResponse)
    ensures
        handler matches Some(h) ==> r.status == h.handled_status(err) && r.body@
            == h.handled_body(err),
        handler is None ==> r.status == spec_status_code(err) && r.body@ == Seq::<u8>::empty(),
{
    match handler {
        Some(h) => h.handle(err),
        None => ErrorResponse { status: err.status_code(), body: Vec::new() },
    }
}

} // verus!
