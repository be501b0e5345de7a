//! The two failure kinds a reduce call can end with, and the policy that
//! only the first reported error is surfaced to the client.

use vstd::prelude::*;

verus! {

/// The gRPC status code every surfaced call failure carries.
pub const GRPC_CODE_UNKNOWN: i32 = 2;

/// A failure inside one reduce call.  Both kinds carry a human-readable
/// message; the transport surfaces it to the client as an RPC error.
#[derive(Debug)]
pub enum ErrorKind {
    /// A protocol violation by the host or an invariant breach inside the
    /// core: missing payload or operation, wrong number of windows, or a
    /// channel send failure.
    InternalError(String),
    /// Abnormal termination of a reducer's execution, such as a panic.
    UserDefinedError(String),
}

/// The spec-level shape of an [`ErrorKind`]: the same two kinds over the
/// message's character sequence.
pub enum ErrorKindView {
    InternalError(Seq<char>),
    UserDefinedError(Seq<char>),
}

impl View for ErrorKind {
    type V = ErrorKindView;

    open spec fn view(&self) -> ErrorKindView {
        match self {
            ErrorKind::InternalError(m) => ErrorKindView::InternalError(m@),
            ErrorKind::UserDefinedError(m) => ErrorKindView::UserDefinedError(m@),
        }
    }
}

impl DeepView for ErrorKind {
    type V = ErrorKindView;

    open spec fn deep_view(&self) -> ErrorKindView {
        self.view()
    }
}

impl ErrorKindView {
    /// The message the error carries, regardless of its kind.
    pub open spec fn message(&self) -> Seq<char> {
        match self {
            ErrorKindView::InternalError(m) => *m,
            ErrorKindView::UserDefinedError(m) => *m,
        }
    }
}

impl ErrorKind {
    /// The message the error carries, regardless of its kind.
    pub open spec fn message_spec(&self) -> Seq<char> {
        match self {
            ErrorKind::InternalError(m) => m@,
            ErrorKind::UserDefinedError(m) => m@,
        }
    }

    pub fn message(&self) -> (r: &String)
        ensures
            r@ == self.message_spec(),
    {
        match self {
            ErrorKind::InternalError(m) => m,
            ErrorKind::UserDefinedError(m) => m,
        }
    }

    /// The transport maps every call failure, internal or user-defined,
    /// to the same gRPC status code: Unknown.
    pub fn grpc_code(&self) -> (c: i32)
        ensures
            c == GRPC_CODE_UNKNOWN,
    {
        GRPC_CODE_UNKNOWN
    }
}

/// Converts the description of a reducer task that terminated abnormally
/// (a panic or a cancelled execution) into the error surfaced to the
/// client.  The reducer's own return value is discarded in that case.
pub fn user_error_from_panic(description: String) -> (e: ErrorKind)
    ensures
        e == ErrorKind::UserDefinedError(description),
{
    ErrorKind::UserDefinedError(description)
}

/// The per-call error drain: of all errors reported on a call, only the
/// first is surfaced on the outbound stream; later ones are discarded,
/// because the call has already failed.
pub struct ErrorDrain {
    pub first: Option<ErrorKind>,
}

impl ErrorDrain {
    pub fn new() -> (r: ErrorDrain)
        ensures
            r.first is None,
    {
        ErrorDrain { first: None }
    }

    /// Reports an error on the call.  Returns true exactly when this error
    /// is the first one, and is therefore the one surfaced to the client;
    /// an error reported after the first leaves the drain unchanged.
    pub fn report(&mut self, error: ErrorKind) -> (surfaced: bool)
        ensures
            surfaced == (old(self).first is None),
            old(self).first is None ==> final(self).first == Some(error),
            old(self).first is Some ==> final(self).first == old(self).first,
    {
        match &self.first {
            None => {
                self.first = Some(error);
                true
            },
            Some(_) => false,
        }
    }
}

} // verus!
