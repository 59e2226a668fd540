//! The client handle: base address, optional credentials, and the current
//! token, together with the fixed table of store operations.

use vstd::prelude::*;
use vstd::string::StringExecFns;
use crate::msg::HyperError;
use crate::msg::trim_of;
use crate::msg::trim_text;
use crate::msg::text_is;
use crate::msg::r_invalid_credentials;
use crate::msg::r_pong;
use crate::msg::pong_sentinel;
use crate::msg::invalid_credentials_sentinel;
use crate::request::Verb;
use crate::request::Request;
use crate::request::Action;
use crate::request::Event;
use crate::request::CallResult;
use crate::dispatch::Dispatch;
use crate::dispatch::Phase;

verus! {

/// A handle on one store. It holds no transport: a driver that owns an
/// HTTP client performs the [`Action`]s the handle and its dispatches ask
/// for, and hands the outcomes back.
pub struct HyperClient {
    /// Base address of the store; fixed after construction.
    pub address: String,
    /// Stored credentials; empty until `authenticate` is called.
    pub username: String,
    pub password: String,
    /// True only after an explicit `authenticate` call.
    pub auth_enabled: bool,
    /// Empty until the first successful authentication exchange; then the
    /// trimmed body of the latest successful exchange.
    pub token: String,
}

impl HyperClient {
    /// Before any `authenticate` call the handle holds neither
    /// credentials nor a token.
    pub open spec fn wf(self) -> bool {
        !self.auth_enabled ==> {
            &&& self.username@ == Seq::<char>::empty()
            &&& self.password@ == Seq::<char>::empty()
            &&& self.token@ == Seq::<char>::empty()
        }
    }

    /// Creates a handle for the store at `address`, with authentication
    /// disabled and an empty token. The handle is to be used only once
    /// the liveness probe has been dispatched and [`Self::connect`] has
    /// judged its outcome `Ok`; a driver does both before handing the
    /// handle out.
    pub fn new(address: String) -> (c: HyperClient)
        ensures
            c.address == address,
            !c.auth_enabled,
            c.username@ == Seq::<char>::empty(),
            c.password@ == Seq::<char>::empty(),
            c.token@ == Seq::<char>::empty(),
            c.wf(),
    {
        HyperClient {
            address,
            username: String::new(),
            password: String::new(),
            auth_enabled: false,
            token: String::new(),
        }
    }

    /// The authentication exchange as a transport action: a POST to the
    /// bare base address carrying the stored credentials as headers.
    pub fn auth_action(&self) -> (a: Action)
        ensures
            (a matches Action::Auth { url, username, password }
                && url == self.address
                && username == self.username
                && password == self.password),
    {
        Action::Auth {
            url: self.address.clone(),
            username: self.username.clone(),
            password: self.password.clone(),
        }
    }

    /// Stores the credentials and enables authentication. The returned
    /// action is the authentication exchange to perform at once; its
    /// outcome goes to [`Self::finish_auth`], which fails the call or
    /// installs the token.
    pub fn authenticate(&mut self, username: String, password: String) -> (a: Action)
        requires
            old(self).wf(),
        ensures
            final(self).address == old(self).address,
            final(self).token == old(self).token,
            final(self).username == username,
            final(self).password == password,
            final(self).auth_enabled,
            final(self).wf(),
            (a matches Action::Auth { url, username: u, password: p }
                && url == final(self).address
                && u == username
                && p == password),
    {
        self.username = username;
        self.password = password;
        self.auth_enabled = true;
        self.auth_action()
    }

    /// Completes an authentication exchange from its outcome. The
    /// invalid-credentials sentinel fails the call and leaves the stored
    /// token untouched; any other response installs its trimmed body as
    /// the new token, overwriting the previous one, and returns the raw
    /// body. A transport failure also leaves the handle untouched.
    pub fn finish_auth(&mut self, ev: Event) -> (r: CallResult)
        requires
            old(self).wf(),
            old(self).auth_enabled,
        ensures
            final(self).address == old(self).address,
            final(self).username == old(self).username,
            final(self).password == old(self).password,
            final(self).auth_enabled == old(self).auth_enabled,
            final(self).wf(),
            (ev matches Event::TransportFailed ==> {
                &&& r == Err::<String, HyperError>(HyperError::Transport)
                &&& *final(self) == *old(self)
            }),
            (ev matches Event::Response(t) ==> {
                &&& t@ == invalid_credentials_sentinel() ==> {
                    &&& r == Err::<String, HyperError>(HyperError::InvalidCredentials)
                    &&& *final(self) == *old(self)
                }
                &&& t@ != invalid_credentials_sentinel() ==> {
                    &&& final(self).token@ == trim_of(t@)
                    &&& r == Ok::<String, HyperError>(t)
                }
            }),
    {
        match ev {
            Event::TransportFailed => Err(HyperError::Transport),
            Event::Response(t) => {
                if text_is(t.as_str(), r_invalid_credentials()) {
                    Err(HyperError::InvalidCredentials)
                } else {
                    self.token = trim_text(t.as_str());
                    Ok(t)
                }
            },
        }
    }

    /// Judges the liveness probe's outcome: construction of a usable
    /// handle succeeds only when the probe came back with the `PONG`
    /// sentinel. A transport failure means the server is unreachable;
    /// any other response text means the address does not speak this
    /// protocol.
    pub fn connect(&self, outcome: CallResult) -> (r: Result<(), HyperError>)
        ensures
            (outcome matches Err(e) ==> r == Err::<(), HyperError>(e)),
            (outcome matches Ok(t) ==> {
                &&& t@ == pong_sentinel() ==> r == Ok::<(), HyperError>(())
                &&& t@ != pong_sentinel() ==> r == Err::<(), HyperError>(HyperError::ProtocolMismatch)
            }),
    {
        match outcome {
            Err(e) => Err(e),
            Ok(t) => {
                if text_is(t.as_str(), r_pong()) {
                    Ok(())
                } else {
                    Err(HyperError::ProtocolMismatch)
                }
            },
        }
    }

    /// The request [`Self::connect`]'s probe dispatches: GET `ping`,
    /// empty body.
    pub fn connect_request(&self) -> (r: Request)
        ensures
            r.verb == Verb::Get,
            r.path@ == "ping"@,
            r.body@ == Seq::<char>::empty(),
    {
        Request { verb: Verb::Get, path: String::from_str("ping"), body: String::new() }
    }

    /// The liveness probe as its own entry point: a bare GET to
    /// `<address>/ping`, no headers, whose response text goes to the
    /// caller unchanged.
    pub fn ping(&self) -> (a: Action)
        ensures
            (a matches Action::Probe { url } && url@ == self.address@ + "/ping"@),
    {
        Action::Probe { url: self.address.clone().concat("/ping") }
    }

    /// Begins a dispatch of `req`: the single choke point every operation
    /// goes through. The first action sends the request to
    /// `<address>/<path>` with the current token attached (even while it
    /// is still empty); the returned machine decides from each outcome
    /// what the driver does next.
    pub fn http(&self, req: Request) -> (r: (Dispatch, Action))
        ensures
            r.0.phase == Phase::AwaitFirst,
            r.0.req == req,
            r.0.wf_for(*self),
            (r.1 matches Action::Send { verb, url, token, body }
                && verb == req.verb
                && url@ == self.address@ + "/"@ + req.path@
                && token == self.token
                && body == req.body),
    {
        let url = self.address.clone().concat("/").concat(req.path.as_str());
        let a = Action::Send {
            verb: req.verb,
            url,
            token: self.token.clone(),
            body: req.body.clone(),
        };
        (Dispatch { req, phase: Phase::AwaitFirst }, a)
    }

    /// `version`: GET at the root path, empty body.
    pub fn version(&self) -> (r: Request)
        ensures
            r.verb == Verb::Get,
            r.path@ == Seq::<char>::empty(),
            r.body@ == Seq::<char>::empty(),
    {
        Request { verb: Verb::Get, path: String::new(), body: String::new() }
    }

    /// `has(key)`: GET `has/{key}`, empty body.
    pub fn has(&self, key: &str) -> (r: Request)
        ensures
            r.verb == Verb::Get,
            r.path@ == "has/"@ + key@,
            r.body@ == Seq::<char>::empty(),
    {
        Request {
            verb: Verb::Get,
            path: String::from_str("has/").concat(key),
            body: String::new(),
        }
    }

    /// `get(key)`: GET `data/{key}`, empty body.
    pub fn get(&self, key: &str) -> (r: Request)
        ensures
            r.verb == Verb::Get,
            r.path@ == "data/"@ + key@,
            r.body@ == Seq::<char>::empty(),
    {
        Request {
            verb: Verb::Get,
            path: String::from_str("data/").concat(key),
            body: String::new(),
        }
    }

    /// `set(key, value)`: POST `data/{key}` with `value` as the body.
    pub fn set(&self, key: &str, value: &str) -> (r: Request)
        ensures
            r.verb == Verb::Post,
            r.path@ == "data/"@ + key@,
            r.body@ == value@,
    {
        Request {
            verb: Verb::Post,
            path: String::from_str("data/").concat(key),
            body: String::from_str(value),
        }
    }

    /// `delete(key)`: DELETE `data/{key}`, empty body.
    pub fn delete(&self, key: &str) -> (r: Request)
        ensures
            r.verb == Verb::Delete,
            r.path@ == "data/"@ + key@,
            r.body@ == Seq::<char>::empty(),
    {
        Request {
            verb: Verb::Delete,
            path: String::from_str("data/").concat(key),
            body: String::new(),
        }
    }

    /// `all`: GET `data`, empty body.
    pub fn all(&self) -> (r: Request)
        ensures
            r.verb == Verb::Get,
            r.path@ == "data"@,
            r.body@ == Seq::<char>::empty(),
    {
        Request { verb: Verb::Get, path: String::from_str("data"), body: String::new() }
    }

    /// `clear`: DELETE `data`, empty body.
    pub fn clear(&self) -> (r: Request)
        ensures
            r.verb == Verb::Delete,
            r.path@ == "data"@,
            r.body@ == Seq::<char>::empty(),
    {
        Request { verb: Verb::Delete, path: String::from_str("data"), body: String::new() }
    }

    /// `empty`: GET `empty`, empty body.
    pub fn empty(&self) -> (r: Request)
        ensures
            r.verb == Verb::Get,
            r.path@ == "empty"@,
            r.body@ == Seq::<char>::empty(),
    {
        Request { verb: Verb::Get, path: String::from_str("empty"), body: String::new() }
    }

    /// `save`: POST `save`, empty body.
    pub fn save(&self) -> (r: Request)
        ensures
            r.verb == Verb::Post,
            r.path@ == "save"@,
            r.body@ == Seq::<char>::empty(),
    {
        Request { verb: Verb::Post, path: String::from_str("save"), body: String::new() }
    }

    /// `reload`: POST `reload`, empty body.
    pub fn reload(&self) -> (r: Request)
        ensures
            r.verb == Verb::Post,
            r.path@ == "reload"@,
            r.body@ == Seq::<char>::empty(),
    {
        Request { verb: Verb::Post, path: String::from_str("reload"), body: String::new() }
    }

    /// `reset`: DELETE `reset`, empty body.
    pub fn reset(&self) -> (r: Request)
        ensures
            r.verb == Verb::Delete,
            r.path@ == "reset"@,
            r.body@ == Seq::<char>::empty(),
    {
        Request { verb: Verb::Delete, path: String::from_str("reset"), body: String::new() }
    }
}

} // verus!
