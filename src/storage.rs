use vstd::prelude::*;
use vstd::string::to_string_from_display_ensures;
use crate::error::{backend_failure, fmt_err, is_backend_failure_of, kind_outcome, ErrorKind, StoreError};
use crate::object_id::{describe_oid_error, is_object_id_hex, object_id_of, RecordId};

verus! {

/// Where the database is reached when no address is configured.
pub const DEFAULT_CONNECTION_URI: &'static str = "mongodb://localhost:27018/?directConnection=true";

/// The message of the error for a well-formed identifier that no record has.
pub const NOT_FOUND_MESSAGE: &'static str = "document not found";

/// What an insert reports: the identifier the new record was stored under.
#[derive(Clone, Copy, Debug)]
pub struct InsertOutcome {
    pub generated_id: RecordId,
}

/// What an update reports: how many records matched the identifier and how
/// many of them were changed.
#[derive(Clone, Copy, Debug)]
pub struct UpdateOutcome {
    pub matched_count: u64,
    pub modified_count: u64,
}

/// What a delete reports: how many records were removed.
#[derive(Clone, Copy, Debug)]
pub struct DeleteOutcome {
    pub deleted_count: u64,
}

/// The address to connect to: the configured one, else the default.
pub fn connection_uri(configured: Option<String>) -> (r: String)
    ensures
        configured matches Some(v) ==> r@ == v@,
        configured is None ==> r@ == DEFAULT_CONNECTION_URI@,
{
    match configured {
        Some(v) => v,
        None => DEFAULT_CONNECTION_URI.to_string(),
    }
}

/// The outcome of reading an identifier, with the error reduced to its kind.
pub open spec fn id_outcome(id: Seq<char>) -> Result<Seq<u8>, ErrorKind> {
    if is_object_id_hex(id) {
        Ok(object_id_of(id))
    } else {
        Err(ErrorKind::InvalidArgument)
    }
}

/// Reads the identifier of a by-id operation. A malformed one is refused
/// here, before anything is asked of the backend.
pub fn parse_id(id: &str) -> (r: Result<RecordId, StoreError>)
    ensures
        r is Ok <==> is_object_id_hex(id@),
        match r {
            Ok(k) => id_outcome(id@) == Ok::<Seq<u8>, ErrorKind>(k@),
            Err(e) => id_outcome(id@) == Err::<Seq<u8>, ErrorKind>(e.kind) && exists|
                x: mongodb::bson::oid::Error,
            | to_string_from_display_ensures::<mongodb::bson::oid::Error>(&x, e.message),
        },
{
    match RecordId::parse(id) {
        Ok(k) => Ok(k),
        Err(x) => {
            let r = fmt_err(describe_oid_error(&x), ErrorKind::InvalidArgument);
            assert(to_string_from_display_ensures::<mongodb::bson::oid::Error>(&x, r.message));
            Err(r)
        },
    }
}

/// What a lookup by identifier reports for what the backend found.
pub open spec fn lookup_outcome<D>(found: Option<D>) -> Result<D, ErrorKind> {
    match found {
        Some(d) => Ok(d),
        None => Err(ErrorKind::NotFound),
    }
}

/// Turns the backend's answer to a lookup by identifier into the record, a
/// not-found error, or a backend error.
pub fn resolve_find_one<D>(outcome: Result<Option<D>, mongodb::error::Error>) -> (r: Result<
    D,
    StoreError,
>)
    ensures
        match outcome {
            Ok(found) => kind_outcome(r) == lookup_outcome(found),
            Err(x) => r matches Err(e) && is_backend_failure_of(x, e),
        },
        r matches Err(e) ==> (e.kind == ErrorKind::NotFound ==> e.message@ == NOT_FOUND_MESSAGE@),
{
    match outcome {
        Ok(Some(d)) => Ok(d),
        Ok(None) => Err(fmt_err(NOT_FOUND_MESSAGE.to_string(), ErrorKind::NotFound)),
        Err(e) => Err(backend_failure(e)),
    }
}

/// Passes on what the backend answered, reporting its failure as a backend
/// error.
pub fn resolve_backend<T>(outcome: Result<T, mongodb::error::Error>) -> (r: Result<T, StoreError>)
    ensures
        match outcome {
            Ok(t) => r matches Ok(x) && x == t,
            Err(x) => r matches Err(e) && is_backend_failure_of(x, e),
        },
{
    match outcome {
        Ok(t) => Ok(t),
        Err(e) => Err(backend_failure(e)),
    }
}

/// Turns the backend's answer to an insert into the identifier the record
/// was stored under: the one the record was given when it was made.
pub fn resolve_insert(assigned: RecordId, outcome: Result<(), mongodb::error::Error>) -> (r: Result<
    InsertOutcome,
    StoreError,
>)
    ensures
        match outcome {
            Ok(_) => r matches Ok(o) && o.generated_id == assigned,
            Err(x) => r matches Err(e) && is_backend_failure_of(x, e),
        },
{
    match outcome {
        Ok(()) => Ok(InsertOutcome { generated_id: assigned }),
        Err(e) => Err(backend_failure(e)),
    }
}

/// The state of reading all records of a collection after one more item of
/// the result stream.
pub enum ListStep<D> {
    /// The records read so far; the stream goes on.
    Continue(Vec<D>),
    /// The stream is over: every record, or the failure that ended it.
    Finished(Result<Vec<D>, StoreError>),
}

/// One step of reading all records: `next` is the stream's next item, `None`
/// at its end. A failure ends the read and drops what was read before it.
pub fn list_step<D>(docs: Vec<D>, next: Option<Result<D, mongodb::error::Error>>) -> (r: ListStep<D>)
    ensures
        match next {
            None => r matches ListStep::Finished(Ok(v)) && v@ == docs@,
            Some(Ok(d)) => r matches ListStep::Continue(v) && v@ == docs@.push(d),
            Some(Err(x)) => r matches ListStep::Finished(Err(e)) && is_backend_failure_of(x, e),
        },
{
    let mut docs = docs;
    match next {
        None => ListStep::Finished(Ok(docs)),
        Some(Ok(d)) => {
            docs.push(d);
            ListStep::Continue(docs)
        },
        Some(Err(e)) => ListStep::Finished(Err(backend_failure(e))),
    }
}

} // verus!
