//! The error a request handler answers with.

use vstd::prelude::*;
use vstd::string::StringExecFns;

verus! {

/// Whose fault a failure is.
#[derive(Debug, Clone, Copy, PartialEq, Eq, Structural)]
pub enum ErrorKind {
    /// The request itself is malformed.
    ClientInput,
    /// A collaborator (chain-data fetcher, key oracle) failed.
    Upstream,
    /// Witness generation timed out or exited with failure.
    WitnessGeneration,
    /// The proving backend failed or returned a proof of a kind that
    /// cannot be relayed.
    Backend,
}

/// A failed request: its kind and a message for the caller.
#[derive(Debug, Clone, PartialEq, Eq)]
pub struct AppError {
    pub kind: ErrorKind,
    pub message: String,
}

/// The mathematical value of an `AppError`.
pub struct AppErrorView {
    pub kind: ErrorKind,
    pub message: Seq<char>,
}

impl View for AppError {
    type V = AppErrorView;

    open spec fn view(&self) -> AppErrorView {
        AppErrorView { kind: self.kind, message: self.message@ }
    }
}

/// The HTTP status that an error of this kind is answered with.
pub open spec fn status_code_of(kind: ErrorKind) -> u16 {
    match kind {
        ErrorKind::ClientInput => 400,
        _ => 500,
    }
}

/// A client-input error with the given message.
pub open spec fn client_error(message: Seq<char>) -> AppErrorView {
    AppErrorView { kind: ErrorKind::ClientInput, message }
}

/// An error of `kind` whose message is `context` followed by what the
/// failed party said.
pub open spec fn relayed_error(kind: ErrorKind, context: Seq<char>, detail: Seq<char>) -> AppErrorView {
    AppErrorView { kind, message: context + detail }
}

impl AppError {
    /// An error of `kind` with the given message.
    pub fn new(kind: ErrorKind, message: &str) -> (e: AppError)
        ensures
            e@ == (AppErrorView { kind, message: message@ }),
    {
        AppError { kind, message: message.to_owned() }
    }

    /// A client-input error with the given message.
    pub fn client(message: &str) -> (e: AppError)
        ensures
            e@ == client_error(message@),
    {
        AppError { kind: ErrorKind::ClientInput, message: message.to_owned() }
    }

    /// An error of `kind` that carries what the failed party said, behind
    /// a few words of context.
    pub fn relayed(kind: ErrorKind, context: &str, detail: &str) -> (e: AppError)
        ensures
            e@ == relayed_error(kind, context@, detail@),
    {
        let mut message = context.to_owned();
        message.append(detail);
        AppError { kind, message }
    }

    /// The HTTP status to answer with: 400 for a malformed request, 500
    /// for everything else.
    pub fn status_code(&self) -> (code: u16)
        ensures
            code == status_code_of(self.kind),
    {
        match self.kind {
            ErrorKind::ClientInput => 400,
            _ => 500,
        }
    }

    /// The message, as the caller is shown it.
    pub fn to_string(&self) -> (text: String)
        ensures
            text@ == self.message@,
    {
        self.message.clone()
    }
}

} // verus!
