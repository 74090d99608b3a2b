//! The process-execution model. The host application spawns the external tool
//! and reports what happened as an `ExecEvent`; the functions here hold the
//! decisions: the exact argument vectors of each subcommand, the success
//! contract (a non-zero exit is always an error, stdout must be UTF-8), and
//! the computation that turns a search result into a binary path.

use vstd::prelude::*;
use vstd::utf8::{decode_utf8, valid_utf8};

use crate::keybase::error::Error;

verus! {

/// One subprocess invocation: the argument vector and an optional payload to
/// write to the child's standard input. Built per call, never persisted.
pub struct ExecutionRequest {
    pub args: Vec<String>,
    pub stdin_payload: Option<String>,
}

/// What a completed child process left behind: its captured standard output
/// and whether it exited with status zero.
pub struct ExecutionResult {
    pub stdout_bytes: Vec<u8>,
    pub exit_succeeded: bool,
}

/// The outcome of one attempted execution, as the host application reports
/// it: the child could not be spawned, the stdin payload could not be written
/// in full, or the child ran to completion.
pub enum ExecEvent {
    SpawnFailed,
    StdinWriteFailed,
    Completed(ExecutionResult),
}

/// The success contract on one execution: spawn and stdin failures surface as
/// their own errors; a non-zero exit is always an error, regardless of what
/// stdout holds; on a zero exit the output must be valid UTF-8 text, decoded
/// without loss.
pub open spec fn spec_exec_outcome(event: ExecEvent) -> Result<Seq<char>, Error> {
    match event {
        ExecEvent::SpawnFailed => Err(Error::ProcessSpawnFailed),
        ExecEvent::StdinWriteFailed => Err(Error::StdinWriteFailed),
        ExecEvent::Completed(res) => if !res.exit_succeeded {
            Err(Error::NonZeroExit)
        } else if valid_utf8(res.stdout_bytes@) {
            Ok(decode_utf8(res.stdout_bytes@))
        } else {
            Err(Error::InvalidTextEncoding)
        },
    }
}

/// The model of a textual result.
pub open spec fn str_result_view(r: Result<String, Error>) -> Result<Seq<char>, Error> {
    match r {
        Ok(s) => Ok(s@),
        Err(e) => Err(e),
    }
}

/// Relies on String::from_utf8: it succeeds exactly on valid UTF-8 input and
/// decodes the bytes to the characters they encode, in vstd's UTF-8 model.
#[verifier::external_body]
fn utf8_to_string(bytes: Vec<u8>) -> (r: Option<String>)
    ensures
        r is Some <==> valid_utf8(bytes@),
        r is Some ==> r.unwrap()@ == decode_utf8(bytes@),
{
    String::from_utf8(bytes).ok()
}

/// Applies the success contract to one execution outcome. No output is valid
/// unless the child exited zero; a zero exit with stdout that is not valid
/// UTF-8 is an encoding error, never lossy text.
pub fn finish_execution(event: ExecEvent) -> (r: Result<String, Error>)
    ensures
        str_result_view(r) == spec_exec_outcome(event),
{
    match event {
        ExecEvent::SpawnFailed => Err(Error::ProcessSpawnFailed),
        ExecEvent::StdinWriteFailed => Err(Error::StdinWriteFailed),
        ExecEvent::Completed(res) => {
            if !res.exit_succeeded {
                Err(Error::NonZeroExit)
            } else {
                match utf8_to_string(res.stdout_bytes) {
                    Some(s) => Ok(s),
                    None => Err(Error::InvalidTextEncoding),
                }
            }
        },
    }
}

/// Law: a non-zero exit always yields `NonZeroExit` — decoded output is never
/// returned for it, whatever was written to stdout.
pub proof fn lemma_nonzero_exit_is_error(res: ExecutionResult)
    requires
        !res.exit_succeeded,
    ensures
        spec_exec_outcome(ExecEvent::Completed(res)) == Err::<Seq<char>, Error>(
            Error::NonZeroExit,
        ),
{
}

/// The status query: `status -j`, nothing on stdin.
pub fn status_request() -> (r: ExecutionRequest)
    ensures
        r.args@.len() == 2,
        r.args@[0]@ == "status"@,
        r.args@[1]@ == "-j"@,
        r.stdin_payload is None,
{
    let mut args: Vec<String> = Vec::new();
    args.push("status".to_owned());
    args.push("-j".to_owned());
    ExecutionRequest { args, stdin_payload: None }
}

/// The version query: `version -S -f s`, nothing on stdin.
pub fn version_request() -> (r: ExecutionRequest)
    ensures
        r.args@.len() == 4,
        r.args@[0]@ == "version"@,
        r.args@[1]@ == "-S"@,
        r.args@[2]@ == "-f"@,
        r.args@[3]@ == "s"@,
        r.stdin_payload is None,
{
    let mut args: Vec<String> = Vec::new();
    args.push("version".to_owned());
    args.push("-S".to_owned());
    args.push("-f".to_owned());
    args.push("s".to_owned());
    ExecutionRequest { args, stdin_payload: None }
}

/// The logout subcommand: `logout`, nothing on stdin.
pub fn logout_request() -> (r: ExecutionRequest)
    ensures
        r.args@.len() == 1,
        r.args@[0]@ == "logout"@,
        r.stdin_payload is None,
{
    let mut args: Vec<String> = Vec::new();
    args.push("logout".to_owned());
    ExecutionRequest { args, stdin_payload: None }
}

/// ASCII whitespace, as it surrounds the path a search prints: space, tab,
/// line feed, carriage return.
pub open spec fn is_ws_byte(b: u8) -> bool {
    b == 32 || b == 9 || b == 10 || b == 13
}

/// The bytes with leading whitespace removed.
pub open spec fn spec_trim_front(s: Seq<u8>) -> Seq<u8>
    decreases s.len(),
{
    if s.len() > 0 && is_ws_byte(s.first()) {
        spec_trim_front(s.drop_first())
    } else {
        s
    }
}

/// The bytes with trailing whitespace removed.
pub open spec fn spec_trim_back(s: Seq<u8>) -> Seq<u8>
    decreases s.len(),
{
    if s.len() > 0 && is_ws_byte(s.last()) {
        spec_trim_back(s.drop_last())
    } else {
        s
    }
}

/// The bytes with surrounding whitespace removed.
pub open spec fn spec_trim(s: Seq<u8>) -> Seq<u8> {
    spec_trim_back(spec_trim_front(s))
}

fn ws_byte(b: u8) -> (r: bool)
    ensures
        r == is_ws_byte(b),
{
    b == 32 || b == 9 || b == 10 || b == 13
}

/// Removes surrounding ASCII whitespace from a byte string.
fn trim_ws(bytes: &Vec<u8>) -> (r: Vec<u8>)
    ensures
        r@ == spec_trim(bytes@),
{
    let n = bytes.len();
    let mut i: usize = 0;
    proof {
        assert(bytes@.skip(0) =~= bytes@);
    }
    while i < n && ws_byte(bytes[i])
        invariant
            0 <= i <= n,
            n == bytes@.len(),
            spec_trim_front(bytes@) == spec_trim_front(bytes@.skip(i as int)),
        decreases n - i,
    {
        proof {
            assert(bytes@.skip(i as int).drop_first() =~= bytes@.skip(i as int + 1));
        }
        i = i + 1;
    }
    proof {
        if i == n {
            assert(bytes@.skip(i as int) =~= Seq::<u8>::empty());
        }
        assert(spec_trim_front(bytes@) == bytes@.skip(i as int));
    }
    let ghost front = bytes@.skip(i as int);
    let mut j: usize = n;
    proof {
        assert(front.take(n - i) =~= front);
    }
    while j > i && ws_byte(bytes[j - 1])
        invariant
            i <= j <= n,
            n == bytes@.len(),
            front == bytes@.skip(i as int),
            spec_trim_back(front) == spec_trim_back(front.take(j - i)),
        decreases j,
    {
        proof {
            assert(front.take(j - i).last() == bytes@[j - 1]);
            assert(front.take(j - i).drop_last() =~= front.take(j - 1 - i));
        }
        j = j - 1;
    }
    proof {
        if j == i {
            assert(front.take(0) =~= Seq::<u8>::empty());
        } else {
            assert(front.take(j - i).last() == bytes@[j - 1]);
        }
        assert(spec_trim_back(front) == front.take(j - i));
    }
    let mut out: Vec<u8> = Vec::new();
    let mut k: usize = i;
    while k < j
        invariant
            i <= k <= j <= n,
            n == bytes@.len(),
            out@ == bytes@.subrange(i as int, k as int),
        decreases j - k,
    {
        out.push(bytes[k]);
        proof {
            assert(bytes@.subrange(i as int, k as int).push(bytes@[k as int]) =~= bytes@.subrange(
                i as int,
                k as int + 1,
            ));
        }
        k = k + 1;
    }
    proof {
        assert(front.take(j - i) =~= bytes@.subrange(i as int, j as int));
    }
    out
}

/// What binary resolution makes of the search's outcome: the search must have
/// run and exited zero, and its output, trimmed of surrounding whitespace,
/// must be non-empty UTF-8 text — that text is the path. Everything else is
/// the one fatal setup error, `BinaryNotFound`.
pub open spec fn spec_find_keybase(event: ExecEvent) -> Result<Seq<char>, Error> {
    match event {
        ExecEvent::Completed(res) => if !res.exit_succeeded {
            Err(Error::BinaryNotFound)
        } else {
            let t = spec_trim(res.stdout_bytes@);
            if t.len() == 0 {
                Err(Error::BinaryNotFound)
            } else if !valid_utf8(t) {
                Err(Error::BinaryNotFound)
            } else {
                Ok(decode_utf8(t))
            }
        },
        _ => Err(Error::BinaryNotFound),
    }
}

/// Turns the outcome of the host's search for the tool's canonical name into
/// a binary path: the first match, trimmed of surrounding whitespace. A search
/// that could not run, found nothing, or printed something unreadable is
/// `BinaryNotFound`.
pub fn find_keybase(search_event: ExecEvent) -> (r: Result<String, Error>)
    ensures
        str_result_view(r) == spec_find_keybase(search_event),
{
    match search_event {
        ExecEvent::SpawnFailed => Err(Error::BinaryNotFound),
        ExecEvent::StdinWriteFailed => Err(Error::BinaryNotFound),
        ExecEvent::Completed(res) => {
            if !res.exit_succeeded {
                Err(Error::BinaryNotFound)
            } else {
                let trimmed = trim_ws(&res.stdout_bytes);
                if trimmed.len() == 0 {
                    Err(Error::BinaryNotFound)
                } else {
                    match utf8_to_string(trimmed) {
                        Some(path) => Ok(path),
                        None => Err(Error::BinaryNotFound),
                    }
                }
            }
        },
    }
}

/// Law: binary resolution is deterministic — the same search outcome yields
/// the identical path.
pub proof fn lemma_find_keybase_deterministic(e1: ExecEvent, e2: ExecEvent)
    requires
        e1 == e2,
    ensures
        spec_find_keybase(e1) == spec_find_keybase(e2),
{
}

} // verus!
