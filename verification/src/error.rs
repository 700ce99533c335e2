//! The failures that a benchmark operation or a served connection can end in.

use vstd::prelude::*;
use vstd::string::StringExecFns;

verus! {

/// What went wrong.
#[derive(Clone, Copy, Debug, PartialEq, Eq, Structural)]
pub enum ErrorKind {
    /// The connection to the peer could not be opened.
    Connect,
    /// A read or a write on a file, a pipe or a socket failed.
    Io,
    /// The external process could not be started.
    ProcessSpawn,
    /// The external process ended with a failure status.
    ProcessExit,
    /// The peer broke the wire protocol.
    Protocol,
}

/// A failure: its kind and the detail that came with it. For
/// [`ErrorKind::ProcessExit`] the detail is the diagnostic text that the
/// process wrote before it ended.
#[derive(Clone, Debug, PartialEq, Eq)]
pub struct BenchError {
    pub kind: ErrorKind,
    pub detail: String,
}

/// A failure as contracts speak of it: its kind and the characters of its
/// detail.
pub struct Failure {
    pub kind: ErrorKind,
    pub detail: Seq<char>,
}

impl View for BenchError {
    type V = Failure;

    open spec fn view(&self) -> Failure {
        Failure { kind: self.kind, detail: self.detail@ }
    }
}

/// The name under which a kind of failure is reported.
pub open spec fn kind_name(kind: ErrorKind) -> Seq<char> {
    match kind {
        ErrorKind::Connect => "connect error"@,
        ErrorKind::Io => "I/O error"@,
        ErrorKind::ProcessSpawn => "process spawn error"@,
        ErrorKind::ProcessExit => "process exit error"@,
        ErrorKind::Protocol => "protocol error"@,
    }
}

impl ErrorKind {
    /// The name under which this kind of failure is reported.
    pub fn name(self) -> (name: &'static str)
        ensures
            name@ == kind_name(self),
    {
        match self {
            ErrorKind::Connect => "connect error",
            ErrorKind::Io => "I/O error",
            ErrorKind::ProcessSpawn => "process spawn error",
            ErrorKind::ProcessExit => "process exit error",
            ErrorKind::Protocol => "protocol error",
        }
    }
}

impl BenchError {
    /// A failure of the given kind with the given detail.
    pub fn new(kind: ErrorKind, detail: String) -> (error: BenchError)
        ensures
            error.kind == kind,
            error.detail == detail,
    {
        BenchError { kind, detail }
    }

    /// The text shown to the user: the kind's name, a colon and a space, then
    /// the detail.
    pub open spec fn description(&self) -> Seq<char> {
        kind_name(self.kind) + ": "@ + self.detail@
    }

    /// Renders the failure for the user.
    pub fn describe(&self) -> (text: String)
        ensures
            text@ == self.description(),
    {
        let mut text = String::from_str(self.kind.name());
        text.append(": ");
        text.append(self.detail.as_str());
        text
    }
}

} // verus!
