//! Client-side core of the HyperDB wire protocol: a remote key-value store
//! spoken to over HTTP with plain-text bodies and exact-match sentinel
//! strings in place of status codes.
//!
//! The library is transport-free. Every operation is described as a
//! [`Request`](request::Request) (verb, path, body), and the dispatch and
//! re-authentication policy is an explicit state machine
//! ([`Dispatch`](dispatch::Dispatch)) that tells its driver which HTTP
//! round-trip to perform next and reacts to the outcome. A driver that owns
//! an HTTP client runs the machine; the machine itself carries all of the
//! protocol's decisions, verified.

pub mod msg;
pub mod request;
pub mod client;
pub mod dispatch;

pub use client::HyperClient;
pub use dispatch::Dispatch;
pub use dispatch::DispatchStep;
pub use msg::HyperError;
pub use request::Request;
pub use request::Verb;
pub use request::Action;
pub use request::Event;
