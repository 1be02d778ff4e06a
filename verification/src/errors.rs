//! The error taxonomy of the crate: a closed set of error kinds, each produced
//! by exactly one class of failure, with optional causal chaining for
//! diagnostics.

use vstd::prelude::*;

verus! {

/// The kind of an error returned by this crate. Callers branch on the kind;
/// the fields carry the vendor's own error code and message, or the operation
/// name and HTTP status for attribution.
#[derive(Debug, PartialEq, Eq)]
pub enum ErrorKind {
    /// A response body could not be decoded into the expected typed result.
    JsonDeserializationFailed,
    /// The transport failed before a response arrived.
    FailedToSendRequest,
    /// A response arrived but its body could not be read.
    FailedToReadResponse,
    /// Any failure during the authenticate operation; the underlying failure
    /// is preserved as the error's cause.
    AuthenticationFailed,
    /// A recognized HTTP error status whose body decoded as the vendor's
    /// structured error object.
    ApiCallFailed { name: String, code: i64, msg: String },
    /// An unrecognized HTTP status, or a recognized error status whose body
    /// did not decode as the vendor's structured error object.
    UnknownApiCallFailure { name: String, status_code: u16 },
}

impl Clone for ErrorKind {
    /// Cloning keeps the kind and every field it carries.
    fn clone(&self) -> (r: Self)
        ensures
            r == *self,
    {
        match self {
            ErrorKind::JsonDeserializationFailed => ErrorKind::JsonDeserializationFailed,
            ErrorKind::FailedToSendRequest => ErrorKind::FailedToSendRequest,
            ErrorKind::FailedToReadResponse => ErrorKind::FailedToReadResponse,
            ErrorKind::AuthenticationFailed => ErrorKind::AuthenticationFailed,
            ErrorKind::ApiCallFailed { name, code, msg } => ErrorKind::ApiCallFailed {
                name: name.clone(),
                code: *code,
                msg: msg.clone(),
            },
            ErrorKind::UnknownApiCallFailure { name, status_code } => ErrorKind::UnknownApiCallFailure {
                name: name.clone(),
                status_code: *status_code,
            },
        }
    }
}

/// The cause chained onto an error, for diagnostics only: either an inner
/// error of this crate, or the text of an underlying outside failure.
#[derive(Debug)]
pub enum ErrorCause {
    Inner(Box<Error>),
    Text(String),
}

/// An error returned by this crate: a kind to dispatch on, and an optional
/// cause for diagnostics.
#[derive(Debug)]
pub struct Error {
    pub kind: ErrorKind,
    pub cause: Option<ErrorCause>,
}

impl Clone for Error {
    /// Cloning keeps the kind; the diagnostic cause is not carried over.
    fn clone(&self) -> (r: Self)
        ensures
            r.kind == self.kind,
            r.cause is None,
    {
        Error { kind: self.kind.clone(), cause: None }
    }
}

impl Error {
    /// Get the kind of the error.
    pub fn kind(&self) -> (r: &ErrorKind)
        ensures
            *r == self.kind,
    {
        &self.kind
    }

    /// An error of the given kind with no cause.
    pub fn from_kind(kind: ErrorKind) -> (r: Error)
        ensures
            r.kind == kind,
            r.cause is None,
    {
        Error { kind, cause: None }
    }

    /// An error of the given kind, recording the text of an underlying
    /// outside failure as its cause.
    pub fn with_text_cause(kind: ErrorKind, cause: String) -> (r: Error)
        ensures
            r.kind == kind,
            r.cause matches Some(c) && c matches ErrorCause::Text(t) && t@ == cause@,
    {
        Error { kind, cause: Some(ErrorCause::Text(cause)) }
    }

    /// An error of the given kind, chaining an earlier error of this crate as
    /// its cause.
    pub fn with_inner_cause(kind: ErrorKind, cause: Error) -> (r: Error)
        ensures
            r.kind == kind,
            r.cause matches Some(c) && c matches ErrorCause::Inner(e) && *e == cause,
    {
        Error { kind, cause: Some(ErrorCause::Inner(Box::new(cause))) }
    }
}

/// Holds of every error kind that the shared call path may surface for the
/// operation named `name`: a transport failure, or a status-classified
/// failure attributed to that operation.
pub open spec fn is_call_failure_for(kind: ErrorKind, name: Seq<char>) -> bool {
    ||| kind is FailedToSendRequest
    ||| kind is FailedToReadResponse
    ||| (kind matches ErrorKind::ApiCallFailed { name: n, .. } && n@ == name)
    ||| (kind matches ErrorKind::UnknownApiCallFailure { name: n, .. } && n@ == name)
}

/// Holds of every error kind that a typed endpoint operation named `name`
/// may surface: a call failure, or a decoding failure of the success body.
pub open spec fn is_endpoint_failure_for(kind: ErrorKind, name: Seq<char>) -> bool {
    ||| is_call_failure_for(kind, name)
    ||| kind is JsonDeserializationFailed
}

/// The error chains exactly the given text as its diagnostic cause.
pub open spec fn has_text_cause(e: Error, text: Seq<char>) -> bool {
    e.cause matches Some(ErrorCause::Text(s)) && s@ == text
}

/// The error chains some text as its diagnostic cause.
pub open spec fn has_some_text_cause(e: Error) -> bool {
    e.cause matches Some(ErrorCause::Text(_))
}

} // verus!
