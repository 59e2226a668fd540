//! The request dispatcher: an explicit state machine that carries the
//! protocol's only nontrivial control flow, the auth-failure retry policy.
//!
//! A driver starts a dispatch with [`crate::client::HyperClient::http`],
//! performs the [`Action`] it is handed, and feeds the outcome back through
//! [`Dispatch::step`] until the machine ends the call.

use vstd::prelude::*;
use vstd::string::StringExecFns;
use crate::msg::HyperError;
use crate::msg::text_is;
use crate::msg::r_auth_failed;
use crate::msg::trim_of;
use crate::msg::auth_failed_sentinel;
use crate::msg::invalid_credentials_sentinel;
use crate::request::Request;
use crate::request::Action;
use crate::request::Event;
use crate::client::HyperClient;

verus! {

/// Which round-trip an in-flight dispatch is waiting on.
#[derive(Clone, Copy, Debug, PartialEq, Eq, Structural)]
pub enum Phase {
    /// The original request has been handed to the driver.
    AwaitFirst,
    /// The auth-failure sentinel came back with auth enabled; the
    /// re-authentication exchange has been handed to the driver.
    AwaitAuth,
    /// The single retry of the original request has been handed to the
    /// driver.
    AwaitRetry,
}

/// An in-flight dispatch of one request.
pub struct Dispatch {
    /// The request being dispatched; a retry resends exactly this.
    pub req: Request,
    pub phase: Phase,
}

/// What the driver is to do after reporting an outcome.
pub enum DispatchStep {
    /// The dispatch goes on: perform this action and report back.
    Next(Dispatch, Action),
    /// The dispatch is over; this is the response text for the caller.
    Done(String),
    /// The dispatch is over with a typed failure.
    Failed(HyperError),
}

/// A transport outcome as the policy sees it: `None` for a transport
/// failure, `Some` of the response text otherwise.
pub open spec fn ev_view(ev: Event) -> Option<Seq<char>> {
    match ev {
        Event::Response(t) => Some(t@),
        Event::TransportFailed => None,
    }
}

/// The retry policy as a pure transition function: from the phase a
/// dispatch is waiting on, whether auth is enabled, and the outcome of
/// that round-trip, to the phase of one further round-trip (`Some`) or
/// the end of the dispatch (`None`).
///
/// Reaching `AwaitAuth` is issuing the re-authentication exchange;
/// reaching `AwaitRetry` is resending the original request; from
/// `AwaitRetry` every outcome is final, so no second retry exists.
pub open spec fn next_phase(p: Phase, auth_enabled: bool, outcome: Option<Seq<char>>) -> Option<
    Phase,
> {
    match outcome {
        None => None,
        Some(t) => match p {
            Phase::AwaitFirst => if t == auth_failed_sentinel() && auth_enabled {
                Some(Phase::AwaitAuth)
            } else {
                None
            },
            Phase::AwaitAuth => if t == invalid_credentials_sentinel() {
                None
            } else {
                Some(Phase::AwaitRetry)
            },
            Phase::AwaitRetry => None,
        },
    }
}

/// The recovery round-trips a dispatch performs beyond the one it is
/// waiting on in phase `p`, given the outcomes the transport will report,
/// in order. Each element is the phase of one round-trip that is actually
/// issued: `AwaitAuth` stands for one re-authentication exchange,
/// `AwaitRetry` for one resend of the original request.
pub open spec fn recovery_phases(
    p: Phase,
    auth_enabled: bool,
    outcomes: Seq<Option<Seq<char>>>,
) -> Seq<Phase>
    decreases outcomes.len(),
{
    if outcomes.len() == 0 {
        Seq::empty()
    } else {
        match next_phase(p, auth_enabled, outcomes[0]) {
            None => Seq::empty(),
            Some(p2) => seq![p2] + recovery_phases(p2, auth_enabled, outcomes.skip(1)),
        }
    }
}

/// Law: once the single retry has been sent, no further round-trip is
/// ever issued, whatever outcomes the transport reports.
pub proof fn lemma_retry_is_final(auth_enabled: bool, outcomes: Seq<Option<Seq<char>>>)
    ensures
        recovery_phases(Phase::AwaitRetry, auth_enabled, outcomes) =~= Seq::<Phase>::empty(),
{
    if outcomes.len() > 0 {
        assert(next_phase(Phase::AwaitRetry, auth_enabled, outcomes[0]) is None);
    }
}

/// Law: a dispatch that receives the auth-failure sentinel on its first
/// response while authentication is enabled performs exactly one
/// re-authentication exchange and then exactly one retry of the original
/// request — never zero, never a second of either. The outcomes after the
/// exchange's are arbitrary: whatever the retry's response holds, it is
/// final.
pub proof fn lemma_exactly_one_retry(
    auth_enabled: bool,
    auth_resp: Seq<char>,
    outcomes: Seq<Option<Seq<char>>>,
)
    requires
        auth_enabled,
        outcomes.len() >= 2,
        outcomes[0] == Some(auth_failed_sentinel()),
        outcomes[1] == Some(auth_resp),
        auth_resp != invalid_credentials_sentinel(),
    ensures
        recovery_phases(Phase::AwaitFirst, auth_enabled, outcomes) =~= seq![
            Phase::AwaitAuth,
            Phase::AwaitRetry,
        ],
{
    let s1 = outcomes.skip(1);
    assert(s1[0] == outcomes[1]);
    lemma_retry_is_final(auth_enabled, s1.skip(1));
    assert(recovery_phases(Phase::AwaitAuth, auth_enabled, s1) =~= seq![Phase::AwaitRetry]);
}

/// Law: with authentication disabled the dispatcher never recovers: the
/// auth-failure sentinel is final, ordinary response text, and no
/// re-authentication or retry round-trip is issued.
pub proof fn lemma_no_retry_without_auth(outcomes: Seq<Option<Seq<char>>>)
    ensures
        recovery_phases(Phase::AwaitFirst, false, outcomes) =~= Seq::<Phase>::empty(),
{
    if outcomes.len() > 0 {
        assert(next_phase(Phase::AwaitFirst, false, outcomes[0]) is None);
    }
}

/// Law: no dispatch ever performs more than one re-authentication
/// exchange and one retry: the recovery round-trips number at most two,
/// and where there are two they are the exchange followed by the retry.
pub proof fn lemma_at_most_one_retry(auth_enabled: bool, outcomes: Seq<Option<Seq<char>>>)
    ensures
        recovery_phases(Phase::AwaitFirst, auth_enabled, outcomes).len() <= 2,
        recovery_phases(Phase::AwaitFirst, auth_enabled, outcomes).len() == 2
            ==> recovery_phases(Phase::AwaitFirst, auth_enabled, outcomes) =~= seq![
            Phase::AwaitAuth,
            Phase::AwaitRetry,
        ],
{
    let whole = recovery_phases(Phase::AwaitFirst, auth_enabled, outcomes);
    if outcomes.len() > 0 {
        let s1 = outcomes.skip(1);
        match next_phase(Phase::AwaitFirst, auth_enabled, outcomes[0]) {
            None => {
                assert(whole =~= Seq::<Phase>::empty());
            },
            Some(p1) => {
                assert(p1 == Phase::AwaitAuth);
                let tail = recovery_phases(Phase::AwaitAuth, auth_enabled, s1);
                assert(whole =~= seq![Phase::AwaitAuth] + tail);
                if s1.len() > 0 {
                    match next_phase(Phase::AwaitAuth, auth_enabled, s1[0]) {
                        None => {
                            assert(tail =~= Seq::<Phase>::empty());
                            assert(whole =~= seq![Phase::AwaitAuth]);
                        },
                        Some(p2) => {
                            assert(p2 == Phase::AwaitRetry);
                            lemma_retry_is_final(auth_enabled, s1.skip(1));
                            assert(tail =~= seq![Phase::AwaitRetry]);
                            assert(whole =~= seq![Phase::AwaitAuth, Phase::AwaitRetry]);
                        },
                    }
                } else {
                    assert(tail =~= Seq::<Phase>::empty());
                    assert(whole =~= seq![Phase::AwaitAuth]);
                }
            },
        }
    } else {
        assert(whole =~= Seq::<Phase>::empty());
    }
}

impl Dispatch {
    /// A dispatch past its first round-trip exists only for a client with
    /// authentication enabled: only such a client re-authenticates.
    pub open spec fn wf_for(self, c: HyperClient) -> bool {
        self.phase != Phase::AwaitFirst ==> c.auth_enabled
    }

    /// Advances the dispatch by the outcome of the round-trip it was
    /// waiting on.
    ///
    /// The whole retry policy stands in the contract: the auth-failure
    /// sentinel on the first response, with auth enabled, triggers the
    /// re-authentication exchange; a successful exchange installs the
    /// trimmed token and resends the identical request (same verb, path
    /// and body) with the refreshed token; the retry's response is final
    /// whatever it holds; with auth disabled the sentinel is returned to
    /// the caller as ordinary text; a transport failure ends the dispatch
    /// as a transport error; the invalid-credentials sentinel on the
    /// exchange fails the dispatch and leaves the token untouched.
    pub fn step(self, client: &mut HyperClient, ev: Event) -> (r: DispatchStep)
        requires
            old(client).wf(),
            self.wf_for(*old(client)),
        ensures
            final(client).wf(),
            final(client).address == old(client).address,
            final(client).username == old(client).username,
            final(client).password == old(client).password,
            final(client).auth_enabled == old(client).auth_enabled,
            // a continuation exists exactly when the policy's transition
            // function says so, and its phase is the one the policy gives
            (r matches DispatchStep::Next(d, _) ==> {
                &&& Some(d.phase) == next_phase(self.phase, old(client).auth_enabled, ev_view(ev))
                &&& d.req == self.req
                &&& d.wf_for(*final(client))
            }),
            (next_phase(self.phase, old(client).auth_enabled, ev_view(ev)) matches Some(p) ==> (
            r matches DispatchStep::Next(d, _)
                && d.phase == p)),
            (ev matches Event::TransportFailed ==> {
                &&& r == DispatchStep::Failed(HyperError::Transport)
                &&& *final(client) == *old(client)
            }),
            (self.phase == Phase::AwaitFirst ==> (ev matches Event::Response(t) ==> {
                &&& (t@ == auth_failed_sentinel() && old(client).auth_enabled) ==> {
                    &&& *final(client) == *old(client)
                    &&& (r matches DispatchStep::Next(d, a) && d.phase == Phase::AwaitAuth
                        && (a matches Action::Auth { url, username, password }
                            && url == old(client).address
                            && username == old(client).username
                            && password == old(client).password))
                }
                &&& !(t@ == auth_failed_sentinel() && old(client).auth_enabled) ==> {
                    &&& *final(client) == *old(client)
                    &&& r == DispatchStep::Done(t)
                }
            })),
            (self.phase == Phase::AwaitAuth ==> (ev matches Event::Response(t) ==> {
                &&& t@ == invalid_credentials_sentinel() ==> {
                    &&& *final(client) == *old(client)
                    &&& r == DispatchStep::Failed(HyperError::InvalidCredentials)
                }
                &&& t@ != invalid_credentials_sentinel() ==> {
                    &&& final(client).token@ == trim_of(t@)
                    &&& (r matches DispatchStep::Next(d, a) && d.phase == Phase::AwaitRetry
                        && (a matches Action::Send { verb, url, token, body }
                            && verb == self.req.verb
                            && url@ == old(client).address@ + "/"@ + self.req.path@
                            && token == final(client).token
                            && body == self.req.body))
                }
            })),
            (self.phase == Phase::AwaitRetry ==> (ev matches Event::Response(t) ==> {
                &&& *final(client) == *old(client)
                &&& r == DispatchStep::Done(t)
            })),
    {
        match ev {
            Event::TransportFailed => DispatchStep::Failed(HyperError::Transport),
            Event::Response(t) => match self.phase {
                Phase::AwaitFirst => {
                    if text_is(t.as_str(), r_auth_failed()) && client.auth_enabled {
                        DispatchStep::Next(
                            Dispatch { req: self.req, phase: Phase::AwaitAuth },
                            client.auth_action(),
                        )
                    } else {
                        DispatchStep::Done(t)
                    }
                },
                Phase::AwaitAuth => {
                    match client.finish_auth(Event::Response(t)) {
                        Err(e) => DispatchStep::Failed(e),
                        Ok(_) => {
                            let url = client.address.clone().concat("/").concat(
                                self.req.path.as_str(),
                            );
                            let a = Action::Send {
                                verb: self.req.verb,
                                url,
                                token: client.token.clone(),
                                body: self.req.body.clone(),
                            };
                            DispatchStep::Next(
                                Dispatch { req: self.req, phase: Phase::AwaitRetry },
                                a,
                            )
                        },
                    }
                },
                Phase::AwaitRetry => DispatchStep::Done(t),
            },
        }
    }
}

} // verus!
