use vstd::prelude::*;
use vstd::std_specs::cmp::PartialEqSpecImpl;
use vstd::std_specs::convert::FromSpecImpl;

verus! {

/// The category of a failure of the definition consumer.
#[derive(Debug, Copy, Clone, PartialEq, Eq, Structural)]
pub enum ErrorKind {
    InternalFailure,
    ExternalFailure,
    AutoConfigFailure,
    StateUpdateFailure,
    AmqpFailure,
    ApiFailure,
}

/// Every failure kind of the identity provider client is an internal failure here.
impl From<cooplan_auth::error::ErrorKind> for ErrorKind {
    fn from(error_kind: cooplan_auth::error::ErrorKind) -> (kind: Self) {
        ErrorKind::InternalFailure
    }
}

impl FromSpecImpl<cooplan_auth::error::ErrorKind> for ErrorKind {
    open spec fn obeys_from_spec() -> bool {
        true
    }

    open spec fn from_spec(v: cooplan_auth::error::ErrorKind) -> Self {
        ErrorKind::InternalFailure
    }
}

/// A failure of the definition consumer: its kind and a human readable message.
#[derive(Debug, Clone)]
pub struct Error {
    pub kind: ErrorKind,
    pub message: String,
}

/// The mathematical value of a failure: its kind and the characters of its message.
pub struct ErrorView {
    pub kind: ErrorKind,
    pub message: Seq<char>,
}

impl View for Error {
    type V = ErrorView;

    open spec fn view(&self) -> ErrorView {
        ErrorView { kind: self.kind, message: self.message@ }
    }
}

/// Builds a failure of the given kind whose message is `prefix` followed by `detail`.
pub(crate) fn failure(kind: ErrorKind, prefix: &str, detail: &str) -> (error: Error)
    ensures
        error@ == (ErrorView { kind, message: prefix@ + detail@ }),
{
    let mut message = prefix.to_owned();
    message.append(detail);
    Error { kind, message }
}

impl Error {
    /// Builds a failure of the given kind carrying the given message.
    pub fn new(kind: ErrorKind, message: String) -> (error: Error)
        ensures
            error.kind == kind,
            error.message == message,
    {
        Error { kind, message }
    }

    /// The kind of this failure.
    pub fn kind(&self) -> (kind: ErrorKind)
        ensures
            kind == self.kind,
    {
        self.kind
    }

    /// The text by which this failure is displayed: its message.
    pub fn to_string(&self) -> (text: String)
        ensures
            text@ == self.message@,
    {
        self.message.clone()
    }
}

impl PartialEq for Error {
    fn eq(&self, other: &Self) -> (equal: bool) {
        self.kind == other.kind && self.message == other.message
    }
}

impl PartialEqSpecImpl for Error {
    open spec fn obeys_eq_spec() -> bool {
        true
    }

    open spec fn eq_spec(&self, other: &Self) -> bool {
        self.kind == other.kind && self.message@ == other.message@
    }
}

/// A failure of the identity provider client becomes an internal failure that keeps
/// the client's message.
impl From<cooplan_auth::error::Error> for Error {
    fn from(error: cooplan_auth::error::Error) -> (converted: Self)
        ensures
            converted.kind == ErrorKind::InternalFailure,
            converted.message@ == crate::foreign::auth_error_text(error),
    {
        let kind: ErrorKind = ErrorKind::InternalFailure;
        Error { kind, message: crate::foreign::auth_error_message(error) }
    }
}

impl FromSpecImpl<cooplan_auth::error::Error> for Error {
    open spec fn obeys_from_spec() -> bool {
        false
    }

    open spec fn from_spec(v: cooplan_auth::error::Error) -> Self {
        Error { kind: ErrorKind::InternalFailure, message: vstd::pervasive::arbitrary() }
    }
}

} // verus!
