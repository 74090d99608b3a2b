//! The error taxonomy of the adapter. Every failure is surfaced as a distinct,
//! inspectable value; nothing is retried by the library itself.

use vstd::prelude::*;

verus! {

/// Everything that can go wrong while supervising the external tool.
#[derive(Debug, Clone, Copy, PartialEq, Eq, Structural)]
pub enum Error {
    /// The executable could not be located on the host, or the search
    /// mechanism itself could not run. A setup problem, not a runtime one.
    BinaryNotFound,
    /// The child process could not be started at the OS level.
    ProcessSpawnFailed,
    /// The stdin payload could not be written in full (the child closed its
    /// input early, or the pipe broke).
    StdinWriteFailed,
    /// The child ran but exited with a non-zero status; its stdout carries no
    /// guarantee and is never inspected to infer success.
    NonZeroExit,
    /// The child's stdout was not valid UTF-8 text.
    InvalidTextEncoding,
    /// The status document was not well-formed JSON, or a field held a value
    /// of the wrong JSON type.
    MalformedStatusDocument,
    /// The strict provisioned-state wire field held a value other than the
    /// integers 0 and 1.
    InvalidFieldEncoding,
}

/// The description of each error, as hosts print it.
pub open spec fn spec_message(e: Error) -> Seq<char> {
    match e {
        Error::BinaryNotFound => "could not locate the keybase binary"@,
        Error::ProcessSpawnFailed => "failed to start the keybase process"@,
        Error::StdinWriteFailed => "failed to write the stdin payload"@,
        Error::NonZeroExit => "keybase returned non-zero exit code"@,
        Error::InvalidTextEncoding => "failed to decode output as utf-8"@,
        Error::MalformedStatusDocument => "failed to parse the status document"@,
        Error::InvalidFieldEncoding => "the provisioned-state field was not zero or one"@,
    }
}

impl Error {
    /// A human-readable description of the error.
    pub fn message(&self) -> (r: &'static str)
        ensures
            r@ == spec_message(*self),
    {
        match self {
            Error::BinaryNotFound => "could not locate the keybase binary",
            Error::ProcessSpawnFailed => "failed to start the keybase process",
            Error::StdinWriteFailed => "failed to write the stdin payload",
            Error::NonZeroExit => "keybase returned non-zero exit code",
            Error::InvalidTextEncoding => "failed to decode output as utf-8",
            Error::MalformedStatusDocument => "failed to parse the status document",
            Error::InvalidFieldEncoding => "the provisioned-state field was not zero or one",
        }
    }
}

} // verus!
