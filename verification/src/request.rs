//! Requests the client can issue, the transport actions a dispatch asks its
//! driver to perform, and the events the driver hands back.

use vstd::prelude::*;
use crate::msg::HyperError;

verus! {

/// The HTTP verbs the protocol uses.
#[derive(Clone, Copy, Debug, PartialEq, Eq, Structural)]
pub enum Verb {
    Get,
    Post,
    Delete,
}

/// One operation against the store: a verb, a path relative to the base
/// address, and a plain-text body.
pub struct Request {
    pub verb: Verb,
    pub path: String,
    pub body: String,
}

/// One HTTP round-trip the driver is asked to perform. The driver carries
/// it out and reports the outcome as an [`Event`].
pub enum Action {
    /// Send `body` to `url` with the given verb and an `Auth: token`
    /// header (the header is sent even while the token is still empty).
    Send { verb: Verb, url: String, token: String, body: String },
    /// The liveness probe: a bare GET to `url`, no headers, empty body.
    Probe { url: String },
    /// The authentication exchange: a POST to `url` (the bare base
    /// address) carrying the credentials as `username` / `password`
    /// request headers, with no `Auth` header and no body.
    Auth { url: String, username: String, password: String },
}

/// The outcome of one transport round-trip, reported by the driver.
pub enum Event {
    /// The round-trip completed; this is the full response body as text.
    Response(String),
    /// Network-level failure: the request never completed.
    TransportFailed,
}

/// A finished call: either the raw response text or a typed failure.
pub type CallResult = Result<String, HyperError>;

} // verus!
