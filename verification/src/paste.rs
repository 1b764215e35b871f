//! Creating a paste: the request is checked, the paste gets an id, a
//! creation time and maybe an expiry, and the stored row is announced.

use crate::clock::hours_in_seconds;
use crate::clock::max_clock_seconds;
use crate::clock::max_delta_seconds;
use crate::clock::now_timestamp;
use crate::id::is_paste_id;
use crate::id::random_id;
use crate::schema::request_valid;
use crate::schema::PasteRequest;
use crate::schema::PasteResponse;
use crate::schema::PasteRow;
use crate::schema::RequestError;
use crate::schema::StoreError;
use crate::status::Status;
use vstd::prelude::*;

verus! {

/// Seconds per hour.
pub const SECONDS_PER_HOUR: i64 = 3600;

/// Whether the expiry of a paste created at `created_at` that lasts
/// `expires_in` hours can be computed: chrono can hold that many hours as a
/// duration, and the sum fits in an `i64`.
pub open spec fn expiry_computable(created_at: i64, expires_in: Option<i64>) -> bool {
    match expires_in {
        None => true,
        Some(h) => {
            &&& -max_delta_seconds() <= h * 3600 <= max_delta_seconds()
            &&& i64::MIN <= created_at + h * 3600 <= i64::MAX
        },
    }
}

/// Whether chrono can hold the hours, if any, as a duration.
pub open spec fn hours_in_range(expires_in: Option<i64>) -> bool {
    expires_in matches Some(h) ==> -max_delta_seconds() <= h * 3600 <= max_delta_seconds()
}

/// Whether `expires_at` is the expiry of a paste created at `created_at` that
/// lasts `expires_in` hours: none without `expires_in`, else `expires_in`
/// hours after creation.
pub open spec fn expiry_of(created_at: i64, expires_in: Option<i64>, expires_at: Option<i64>) -> bool {
    match expires_in {
        None => expires_at is None,
        Some(h) => expires_at matches Some(e) && e == created_at + h * 3600,
    }
}

/// Whether `row` is the row for the request `req` under the id `id` and the
/// creation time `created_at`: it keeps the request's content and expires
/// `expires_in` hours after creation.
pub open spec fn row_for_request(req: PasteRequest, id: Seq<char>, created_at: i64, row: PasteRow) -> bool {
    &&& row.id@ == id
    &&& row.content@ == req.content@
    &&& row.created_at == created_at
    &&& expiry_of(created_at, req.expires_in, row.expires_at)
}

/// Whether the reply body `reply` announces the row `row`: same id and
/// timestamps.
pub open spec fn announces(reply: PasteResponse, row: PasteRow) -> bool {
    &&& reply.id@ == row.id@
    &&& reply.created_at == row.created_at
    &&& reply.expires_at == row.expires_at
}

/// Why a paste could not be made.
#[derive(Debug, Clone, Copy, PartialEq, Eq, Structural)]
pub enum PasteError {
    /// The request breaks its rules.
    Invalid(RequestError),
    /// At the creation time read from the clock, the expiry does not fit in
    /// chrono's durations or in an `i64`.
    ExpiryOutOfRange { created_at: i64 },
}

/// Tells whether the expiry can be computed.
pub fn can_compute_expiry(created_at: i64, expires_in: Option<i64>) -> (b: bool)
    ensures
        b == expiry_computable(created_at, expires_in),
{
    match expires_in {
        None => true,
        Some(h) => match h.checked_mul(SECONDS_PER_HOUR) {
            None => false,
            Some(secs) => {
                let limit: i64 = i64::MAX / 1000;
                -limit <= secs && secs <= limit && created_at.checked_add(secs).is_some()
            },
        },
    }
}

/// The expiry of a paste created at `created_at` that lasts `expires_in`
/// hours.
pub fn expiry(created_at: i64, expires_in: Option<i64>) -> (r: Option<i64>)
    requires
        expiry_computable(created_at, expires_in),
    ensures
        expiry_of(created_at, expires_in, r),
{
    match expires_in {
        None => None,
        Some(hours) => {
            let secs = hours_in_seconds(hours);
            Some(created_at + secs)
        },
    }
}

/// Builds the row for a paste request, given the id and creation time it
/// gets: refused when the request breaks its rules.
pub fn prepare_paste(req: PasteRequest, id: String, created_at: i64) -> (r: Result<PasteRow, RequestError>)
    requires
        request_valid(req) ==> expiry_computable(created_at, req.expires_in),
    ensures
        r is Ok <==> request_valid(req),
        r matches Err(e) ==> e == RequestError::EmptyContent,
        r matches Ok(row) ==> row_for_request(req, id@, created_at, row),
{
    match req.validate() {
        Err(e) => Err(e),
        Ok(()) => {
            let expires_at = expiry(created_at, req.expires_in);
            Ok(PasteRow { id, content: req.content, created_at, expires_at })
        },
    }
}

/// Makes the row for a paste request: a request that breaks its rules is
/// refused before anything else; otherwise the paste gets a random id and
/// the current time as its creation time.
pub fn new_paste(req: PasteRequest) -> (r: Result<PasteRow, PasteError>)
    ensures
        r matches Err(PasteError::Invalid(_)) <==> !request_valid(req),
        r matches Err(PasteError::Invalid(_)) <==> req.content@.len() == 0,
        req.content@.len() >= 1 && (req.expires_in matches Some(h) ==> -(i64::MAX / 1000) <= h * 3600
            <= i64::MAX / 1000) ==> r is Ok,
        r matches Err(PasteError::Invalid(e)) ==> e == RequestError::EmptyContent,
        r matches Err(PasteError::ExpiryOutOfRange { created_at }) ==> !expiry_computable(
            created_at,
            req.expires_in,
        ),
        request_valid(req) && hours_in_range(req.expires_in) ==> r is Ok,
        request_valid(req) && !hours_in_range(req.expires_in) ==> (r matches Err(
            PasteError::ExpiryOutOfRange { .. },
        )),
        r matches Ok(row) ==> 0 <= row.created_at <= max_clock_seconds(),
        r matches Ok(row) ==> is_paste_id(row.id@) && row_for_request(req, row.id@, row.created_at, row),
{
    if let Err(e) = req.validate() {
        return Err(PasteError::Invalid(e));
    }
    let id = random_id();
    let created_at = now_timestamp();
    assert(hours_in_range(req.expires_in) ==> expiry_computable(created_at, req.expires_in)) by {
        assert(0 <= created_at <= max_clock_seconds());
    }
    if !can_compute_expiry(created_at, req.expires_in) {
        return Err(PasteError::ExpiryOutOfRange { created_at });
    }
    match prepare_paste(req, id, created_at) {
        Ok(row) => Ok(row),
        Err(e) => Err(PasteError::Invalid(e)),
    }
}

/// The status a refused paste request is answered with: `422 Unprocessable
/// Entity` when the request breaks its rules; none when the expiry cannot be
/// computed, which ends the request without an answer.
pub fn refusal_status(e: PasteError) -> (r: Option<Status>)
    ensures
        e is Invalid ==> r == Some(Status::UnprocessableEntity),
        e is ExpiryOutOfRange ==> r is None,
{
    match e {
        PasteError::Invalid(_) => Some(Status::UnprocessableEntity),
        PasteError::ExpiryOutOfRange { .. } => None,
    }
}

/// The reply to a paste request once its row was handed to the database:
/// `201 Created` with the row's id and timestamps when it was stored,
/// `500 Internal Server Error` when the database failed.
pub fn paste_reply(row: &PasteRow, stored: Result<(), StoreError>) -> (r: Result<(Status, PasteResponse), Status>)
    ensures
        stored is Ok ==> (r matches Ok((s, p)) && s == Status::Created && announces(p, *row)),
        stored is Err ==> r == Err::<(Status, PasteResponse), Status>(Status::InternalServerError),
{
    match stored {
        Ok(()) => Ok((Status::Created, row.response())),
        Err(_) => Err(Status::InternalServerError),
    }
}

} // verus!
