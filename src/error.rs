use vstd::prelude::*;
use vstd::string::to_string_from_display_ensures;

verus! {

/// What kind of failure an operation of the storage layer reports.
#[derive(Clone, Copy, Debug, PartialEq, Eq, Structural)]
pub enum ErrorKind {
    /// The caller's identifier is not a well-formed encoding.
    InvalidArgument,
    /// The identifier is well formed but no record carries it.
    NotFound,
    /// The connection, the query, or (de)serialising a stored document failed.
    BackendError,
}

impl ErrorKind {
    /// The HTTP status a handler answers with: a client error for a malformed
    /// identifier, not-found for an absent record, a server error otherwise.
    pub fn http_status(&self) -> (r: u16)
        ensures
            *self == ErrorKind::InvalidArgument ==> r == 400,
            *self == ErrorKind::NotFound ==> r == 404,
            *self == ErrorKind::BackendError ==> r == 500,
    {
        match self {
            ErrorKind::InvalidArgument => 400,
            ErrorKind::NotFound => 404,
            ErrorKind::BackendError => 500,
        }
    }
}

/// A failure of the storage layer: its kind and a short message.
#[derive(Debug)]
pub struct StoreError {
    pub kind: ErrorKind,
    pub message: String,
}

/// Wraps a failure's message with the kind under which it is reported.
pub fn fmt_err(message: String, kind: ErrorKind) -> (r: StoreError)
    ensures
        r.kind == kind,
        r.message == message,
{
    StoreError { kind, message }
}

/// The outcome of an operation with each error reduced to its kind.
pub open spec fn kind_outcome<T>(r: Result<T, StoreError>) -> Result<T, ErrorKind> {
    match r {
        Ok(t) => Ok(t),
        Err(e) => Err(e.kind),
    }
}

#[verifier::external_type_specification]
#[verifier::external_body]
pub struct ExDriverError(mongodb::error::Error);

/// The driver error's message: the text its `Display` writes.
fn describe_driver_error(e: &mongodb::error::Error) -> (r: String)
    ensures
        to_string_from_display_ensures::<mongodb::error::Error>(e, r),
{
    e.to_string()
}

/// A backend error whose message is the text of the driver's error `e`.
pub open spec fn is_backend_failure_of(e: mongodb::error::Error, r: StoreError) -> bool {
    &&& r.kind == ErrorKind::BackendError
    &&& to_string_from_display_ensures::<mongodb::error::Error>(&e, r.message)
}

/// Reports a failure of the database driver as a backend error carrying the
/// driver's message.
pub fn backend_failure(e: mongodb::error::Error) -> (r: StoreError)
    ensures
        r.kind == ErrorKind::BackendError,
        is_backend_failure_of(e, r),
{
    fmt_err(describe_driver_error(&e), ErrorKind::BackendError)
}

/// The body of an error response: one human-readable message.
#[derive(Debug)]
pub struct APIError {
    pub error: String,
}

impl APIError {
    pub fn new(error: String) -> (r: APIError)
        ensures
            r.error@ == error@,
    {
        APIError { error }
    }

    /// The response body for a failure of the storage layer: its message.
    pub fn from_err(err: StoreError) -> (r: APIError)
        ensures
            r.error@ == err.message@,
    {
        APIError::new(err.message)
    }
}

} // verus!
