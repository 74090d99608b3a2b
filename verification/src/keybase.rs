//! The session manager. A `Keybase` owns the credentials, the resolved binary
//! path and the last known status. Login and logout are two-step transitions:
//! the subcommand runs first, then a fresh status query — the query is
//! authoritative, success of the subcommand is never assumed. The host
//! application performs each requested execution and feeds its outcome back
//! through `step`; on any failure the stored status is left untouched.

use vstd::prelude::*;
use vstd::string::StringExecFns;

pub mod cmd;
pub mod decode;
pub mod error;
pub mod json;

use crate::keybase::cmd::{
    finish_execution, spec_exec_outcome, status_request, ExecEvent, ExecutionRequest,
};
use crate::keybase::decode::{decode_status, spec_decode_text, status_result_view};
use crate::keybase::error::Error;
use crate::{StatusResponse, StatusView};

verus! {

/// One session with the external tool: credentials, the binary path the
/// session was constructed with, and the most recent status the tool
/// reported. The paperkey is owned exclusively by the session and leaves it
/// only as the transient stdin payload of a login request.
pub struct Keybase {
    pub username: String,
    paperkey: String,
    pub keybase_path: String,
    pub status: StatusResponse,
}

/// Mathematical model of a session.
pub ghost struct KeybaseView {
    pub username: Seq<char>,
    pub paperkey: Seq<char>,
    pub keybase_path: Seq<char>,
    pub status: StatusView,
}

impl View for Keybase {
    type V = KeybaseView;

    closed spec fn view(&self) -> KeybaseView {
        KeybaseView {
            username: self.username@,
            paperkey: self.paperkey@,
            keybase_path: self.keybase_path@,
            status: self.status@,
        }
    }
}

/// Which transition a `Transition` is carrying out.
#[derive(Clone, Copy, PartialEq, Eq, Structural, Debug)]
pub enum TransitionKind {
    Login,
    Logout,
}

/// One in-flight login or logout. `querying` is false while the subcommand
/// itself is outstanding and true while the authoritative status re-query is.
#[derive(Clone, Copy, PartialEq, Eq, Structural, Debug)]
pub struct Transition {
    pub kind: TransitionKind,
    pub querying: bool,
}

/// What `step` asks of the host next: run one more execution, or the
/// transition is over with the given result.
pub enum StepResult {
    Continue(Transition, ExecutionRequest),
    Done(Result<(), Error>),
}

/// What one status query on `event` yields: the text under the success
/// contract, then its decode — an exact function of the event.
pub open spec fn spec_query_result(event: ExecEvent) -> Result<StatusView, Error> {
    match spec_exec_outcome(event) {
        Err(e) => Err(e),
        Ok(text) => spec_decode_text(text),
    }
}

/// Runs one status query to completion: the success contract on the
/// execution, then the decode of its text.
pub fn complete_status_query(event: ExecEvent) -> (r: Result<StatusResponse, Error>)
    ensures
        status_result_view(r) == spec_query_result(event),
{
    let text = match finish_execution(event) {
        Ok(t) => t,
        Err(e) => {
            return Err(e);
        },
    };
    decode_status(text.as_str())
}

/// The spec-level effect of one completed transition: the freshly decoded
/// status wholly replaces the stored one, and nothing else of the session
/// changes.
pub open spec fn spec_apply_query(k: KeybaseView, s: StatusView) -> KeybaseView {
    KeybaseView { status: s, ..k }
}

impl Keybase {
    /// Constructs a session from credentials, a binary path (resolved by
    /// `cmd::find_keybase` or supplied by the caller) and the outcome of the
    /// construction-time status query. A session exists exactly when that
    /// query succeeded, and it stores exactly the queried status; on any
    /// failure the query's error is returned and no session exists.
    pub fn new(
        username: String,
        paperkey: String,
        keybase_path: String,
        query_event: ExecEvent,
    ) -> (r: Result<Keybase, Error>)
        ensures
            match r {
                Ok(k) => {
                    &&& k@.username == username@
                    &&& k@.paperkey == paperkey@
                    &&& k@.keybase_path == keybase_path@
                    &&& spec_query_result(query_event) == Ok::<StatusView, Error>(k@.status)
                },
                Err(e) => spec_query_result(query_event) == Err::<StatusView, Error>(e),
            },
    {
        match complete_status_query(query_event) {
            Ok(status) => Ok(Keybase { username, paperkey, keybase_path, status }),
            Err(e) => Err(e),
        }
    }

    /// The one-shot authentication request: `oneshot -u <username>`, with the
    /// paperkey as the stdin payload.
    pub fn login_request(&self) -> (r: ExecutionRequest)
        ensures
            r.args@.len() == 3,
            r.args@[0]@ == "oneshot"@,
            r.args@[1]@ == "-u"@,
            r.args@[2]@ == self@.username,
            r.stdin_payload is Some,
            r.stdin_payload.unwrap()@ == self@.paperkey,
    {
        let mut args: Vec<String> = Vec::new();
        args.push("oneshot".to_owned());
        args.push("-u".to_owned());
        args.push(self.username.clone());
        ExecutionRequest { args, stdin_payload: Some(self.paperkey.clone()) }
    }

    /// Begins a login: the transition to drive through `step`, and the
    /// one-shot authentication request to run first.
    pub fn login(&self) -> (r: (Transition, ExecutionRequest))
        ensures
            r.0 == (Transition { kind: TransitionKind::Login, querying: false }),
            r.1.args@.len() == 3,
            r.1.args@[0]@ == "oneshot"@,
            r.1.args@[1]@ == "-u"@,
            r.1.args@[2]@ == self@.username,
            r.1.stdin_payload is Some,
            r.1.stdin_payload.unwrap()@ == self@.paperkey,
    {
        (Transition { kind: TransitionKind::Login, querying: false }, self.login_request())
    }

    /// Begins a logout: the transition to drive through `step`, and the
    /// logout request to run first.
    pub fn logout(&self) -> (r: (Transition, ExecutionRequest))
        ensures
            r.0 == (Transition { kind: TransitionKind::Logout, querying: false }),
            r.1.args@.len() == 1,
            r.1.args@[0]@ == "logout"@,
            r.1.stdin_payload is None,
    {
        (Transition { kind: TransitionKind::Logout, querying: false }, cmd::logout_request())
    }

    /// Advances one transition by the outcome of its last requested
    /// execution. While the subcommand is outstanding, a failure ends the
    /// transition with its error and a success asks for the status re-query;
    /// the session is untouched either way. On the re-query's outcome the
    /// transition always ends: on success exactly the status decoded from
    /// that re-query's output wholly replaces the stored one, on any failure
    /// the session keeps its previous status unchanged — there is no partial
    /// update, and success is never assumed without the re-query saying so.
    pub fn step(&mut self, t: Transition, event: ExecEvent) -> (r: StepResult)
        ensures
            final(self)@.username == old(self)@.username,
            final(self)@.paperkey == old(self)@.paperkey,
            final(self)@.keybase_path == old(self)@.keybase_path,
            !t.querying ==> final(self)@ == old(self)@ && match spec_exec_outcome(event) {
                Err(e) => r == StepResult::Done(Err::<(), Error>(e)),
                Ok(_) => {
                    &&& r is Continue
                    &&& r->Continue_0 == (Transition { kind: t.kind, querying: true })
                    &&& r->Continue_1.args@.len() == 2
                    &&& r->Continue_1.args@[0]@ == "status"@
                    &&& r->Continue_1.args@[1]@ == "-j"@
                    &&& r->Continue_1.stdin_payload is None
                },
            },
            t.querying ==> match r {
                StepResult::Done(res) => match res {
                    Ok(_) => {
                        &&& spec_query_result(event) == Ok::<StatusView, Error>(
                            final(self)@.status,
                        )
                        &&& final(self)@ == spec_apply_query(old(self)@, final(self)@.status)
                    },
                    Err(e) => {
                        &&& final(self)@ == old(self)@
                        &&& spec_query_result(event) == Err::<StatusView, Error>(e)
                    },
                },
                _ => false,
            },
    {
        if !t.querying {
            match finish_execution(event) {
                Ok(_) => StepResult::Continue(
                    Transition { kind: t.kind, querying: true },
                    status_request(),
                ),
                Err(e) => StepResult::Done(Err(e)),
            }
        } else {
            match complete_status_query(event) {
                Ok(status) => {
                    self.status = status;
                    StepResult::Done(Ok(()))
                },
                Err(e) => StepResult::Done(Err(e)),
            }
        }
    }

    /// A one-line description of the session for hosts that print it. The
    /// text is exactly the username and the logged-in flag of the last known
    /// status; the paperkey never appears in it.
    pub fn summary(&self) -> (r: String)
        ensures
            r@ == "Keybase { username: "@ + self@.username + ", logged_in: "@ + spec_bool_text(
                self@.status.logged_in,
            ) + " }"@,
    {
        let mut out: String = "Keybase { username: ".to_owned();
        out.append(self.username.as_str());
        out.append(", logged_in: ");
        if self.status.logged_in {
            out.append("true");
        } else {
            out.append("false");
        }
        out.append(" }");
        out
    }
}

/// The text of a boolean.
pub open spec fn spec_bool_text(b: bool) -> Seq<char> {
    if b {
        "true"@
    } else {
        "false"@
    }
}

/// Law: the re-query is authoritative and a completed transition replaces the
/// status wholly. Whatever state a session was in, completing one transition
/// whose re-query decoded to `s1` and then another whose re-query decoded to
/// `s2` leaves exactly `s2` as the status — logged in exactly when `s2`
/// reports it — while credentials and binary path persist. In particular a
/// logout followed by a login ends with the login's reported state, and the
/// opposite order ends with the logout's.
pub proof fn lemma_requery_is_authoritative(k: KeybaseView, s1: StatusView, s2: StatusView)
    ensures
        spec_apply_query(spec_apply_query(k, s1), s2).status == s2,
        spec_apply_query(spec_apply_query(k, s1), s2).status.logged_in == s2.logged_in,
        spec_apply_query(spec_apply_query(k, s1), s2).username == k.username,
        spec_apply_query(spec_apply_query(k, s1), s2).paperkey == k.paperkey,
        spec_apply_query(spec_apply_query(k, s1), s2).keybase_path == k.keybase_path,
{
}

} // verus!
