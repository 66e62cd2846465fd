//! Why a lookup failed.

use vstd::prelude::*;
use crate::text::join3;

verus! {

/// The kinds of failure that a lookup can end in.
#[derive(Clone, Copy, Debug, PartialEq, Eq, Structural)]
pub enum ErrorKind {
    /// A program that the runtime needs is not installed.
    ToolMissing,
    /// A program could not be started, or reported failure.
    ExternalCommandFailed,
    /// What a program or a file said has not the expected shape.
    ParseError,
    /// Nothing answers to the identifier at some stage of the lookup.
    NotFound,
    /// An unexpected condition of the system, such as an unreadable process
    /// directory.
    Internal,
}

/// A failed lookup: its kind, and a message for the person who asked.
#[derive(Clone, Debug)]
pub struct LookupError {
    pub kind: ErrorKind,
    pub message: String,
}

/// A `LookupError` as contracts speak of it.
pub struct ErrorView {
    pub kind: ErrorKind,
    pub message: Seq<char>,
}

impl View for LookupError {
    type V = ErrorView;

    open spec fn view(&self) -> ErrorView {
        ErrorView { kind: self.kind, message: self.message@ }
    }
}

/// The failure `e` as met while doing `what`: of the same kind, with `what`
/// and a colon before its message.
pub open spec fn in_context(e: ErrorView, what: Seq<char>) -> ErrorView {
    ErrorView { kind: e.kind, message: what + ": "@ + e.message }
}

/// A result with its error replaced by the error's view.
pub open spec fn lift<T>(r: Result<T, LookupError>) -> Result<T, ErrorView> {
    match r {
        Ok(value) => Ok(value),
        Err(e) => Err(e@),
    }
}

/// A result that holds a string, with the string replaced by its text and
/// the error by its view.
pub open spec fn lift_text(r: Result<String, LookupError>) -> Result<Seq<char>, ErrorView> {
    match r {
        Ok(s) => Ok(s@),
        Err(e) => Err(e@),
    }
}

/// That the system did not let `what` be done, for the reason `cause`.
pub open spec fn system_failure(what: Seq<char>, cause: Seq<char>) -> ErrorView {
    ErrorView { kind: ErrorKind::Internal, message: what + ": "@ + cause }
}

/// Reports that the system did not let `what` be done.
pub fn unreadable(what: &str, cause: &str) -> (e: LookupError)
    ensures
        e@ == system_failure(what@, cause@),
{
    LookupError { kind: ErrorKind::Internal, message: join3(what, ": ", cause) }
}

impl LookupError {
    /// A failure of the given kind.
    pub fn new(kind: ErrorKind, message: String) -> (e: LookupError)
        ensures
            e@ == (ErrorView { kind, message: message@ }),
    {
        LookupError { kind, message }
    }

    /// This failure as met while doing `what`.
    pub fn context(self, what: &str) -> (e: LookupError)
        ensures
            e@ == in_context(self@, what@),
    {
        let message = join3(what, ": ", self.message.as_str());
        LookupError { kind: self.kind, message }
    }

    /// A copy of this failure.
    pub fn duplicate(&self) -> (e: LookupError)
        ensures
            e@ == self@,
    {
        LookupError { kind: self.kind, message: self.message.clone() }
    }

    /// The message of this failure.
    pub fn to_string(&self) -> (message: String)
        ensures
            message@ == self@.message,
    {
        self.message.clone()
    }
}

} // verus!
