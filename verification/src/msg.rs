//! The protocol's sentinel vocabulary and the error kinds the client
//! surfaces, together with the small text operations the core needs.

use vstd::prelude::*;
use vstd::string::StringExecFns;

verus! {

/// Liveness probe success.
pub open spec fn pong_sentinel() -> Seq<char> {
    "PONG"@
}

/// Operation succeeded, no payload.
pub open spec fn ok_sentinel() -> Seq<char> {
    "OK"@
}

/// Boolean-true result (`has` / `empty` checks).
pub open spec fn yes_sentinel() -> Seq<char> {
    "YES"@
}

/// Current token rejected by the server.
pub open spec fn auth_failed_sentinel() -> Seq<char> {
    "AUTH_FAILED"@
}

/// The authentication exchange itself rejected the credentials.
pub open spec fn invalid_credentials_sentinel() -> Seq<char> {
    "INVALID_CREDENTIALS"@
}

/// The `PONG` sentinel as a string slice.
pub fn r_pong() -> (r: &'static str)
    ensures
        r@ == pong_sentinel(),
{
    "PONG"
}

/// The `OK` sentinel as a string slice.
pub fn r_ok() -> (r: &'static str)
    ensures
        r@ == ok_sentinel(),
{
    "OK"
}

/// The `YES` sentinel as a string slice.
pub fn r_true() -> (r: &'static str)
    ensures
        r@ == yes_sentinel(),
{
    "YES"
}

/// The `AUTH_FAILED` sentinel as a string slice.
pub fn r_auth_failed() -> (r: &'static str)
    ensures
        r@ == auth_failed_sentinel(),
{
    "AUTH_FAILED"
}

/// The `INVALID_CREDENTIALS` sentinel as a string slice.
pub fn r_invalid_credentials() -> (r: &'static str)
    ensures
        r@ == invalid_credentials_sentinel(),
{
    "INVALID_CREDENTIALS"
}

/// The error kinds a client call can surface.
#[derive(Clone, Copy, Debug, PartialEq, Eq, Structural)]
pub enum HyperError {
    /// Network-level failure: the server could not be reached or the
    /// round-trip did not complete.
    Transport,
    /// The liveness probe answered, but not with the expected sentinel:
    /// the address does not host a compatible store.
    ProtocolMismatch,
    /// The authentication exchange rejected the supplied credentials.
    InvalidCredentials,
}

/// Exact, case-sensitive comparison of two pieces of response text.
pub fn text_is(t: &str, s: &str) -> (b: bool)
    ensures
        b == (t@ == s@),
{
    let a: String = String::from_str(t);
    let c: String = String::from_str(s);
    a == c
}

/// What `str::trim` leaves of a piece of text: the result depends on the
/// characters alone.
pub uninterp spec fn trim_of(s: Seq<char>) -> Seq<char>;

/// Relies on `str::trim`: removes leading and trailing whitespace, so an
/// empty string stays empty.
#[verifier::external_body]
pub(crate) fn trim_text(s: &str) -> (r: String)
    ensures
        r@ == trim_of(s@),
        s@.len() == 0 ==> r@.len() == 0,
{
    s.trim().to_owned()
}

} // verus!
