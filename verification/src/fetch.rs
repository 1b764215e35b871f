//! Looking a paste up, and checking that the database answers.

use crate::schema::FetchResponse;
use crate::schema::StoreError;
use crate::status::Status;
use vstd::prelude::*;

verus! {

/// The reply to a lookup, given what the database answered: the paste when
/// it was found, `404 Not Found` when no paste has that id, `500 Internal
/// Server Error` when the database failed.
pub open spec fn lookup_outcome(found: Result<Option<FetchResponse>, StoreError>) -> Result<FetchResponse, Status> {
    match found {
        Ok(Some(p)) => Ok(p),
        Ok(None) => Err(Status::NotFound),
        Err(_) => Err(Status::InternalServerError),
    }
}

/// The reply to a lookup, given what the database answered: the paste when
/// it was found, `404 Not Found` when no paste has that id, `500 Internal
/// Server Error` when the database failed.
pub fn fetch_reply(found: Result<Option<FetchResponse>, StoreError>) -> (r: Result<FetchResponse, Status>)
    ensures
        r == lookup_outcome(found),
{
    match found {
        Ok(Some(paste)) => Ok(paste),
        Ok(None) => Err(Status::NotFound),
        Err(_) => Err(Status::InternalServerError),
    }
}

/// The reply to a health check, given whether the database answered a
/// trivial query: an empty success, or `500 Internal Server Error`.
pub fn health_reply(check: Result<(), StoreError>) -> (r: Result<(), Status>)
    ensures
        check is Ok ==> r is Ok,
        check is Err ==> r == Err::<(), Status>(Status::InternalServerError),
{
    match check {
        Ok(()) => Ok(()),
        Err(_) => Err(Status::InternalServerError),
    }
}

} // verus!
