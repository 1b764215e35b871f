//! The bodies the service reads and writes, and the row it stores per paste.

use crate::validation::length_ok;
use crate::validation::validate_length;
use vstd::prelude::*;

verus! {

/// The body of a request to create a paste.
#[derive(Debug, Clone, PartialEq, Eq)]
pub struct PasteRequest {
    /// The text to store; it must not be empty.
    pub content: String,
    /// Hours until the paste expires, if it should.
    pub expires_in: Option<i64>,
}

/// The body of the reply to a created paste.
#[derive(Debug, Clone, PartialEq, Eq)]
pub struct PasteResponse {
    pub id: String,
    pub created_at: i64,
    pub expires_at: Option<i64>,
}

/// The body of the reply to a fetched paste.
#[derive(Debug, Clone, PartialEq, Eq)]
pub struct FetchResponse {
    pub id: String,
    pub content: String,
    pub created_at: i64,
    pub expires_at: Option<i64>,
}

/// A row of the `pastes` table.
#[derive(Debug, Clone, PartialEq, Eq)]
pub struct PasteRow {
    pub id: String,
    pub content: String,
    pub created_at: i64,
    pub expires_at: Option<i64>,
}

/// A failure of the database that backs the service.
#[derive(Debug, Clone, Copy, PartialEq, Eq, Structural)]
pub struct StoreError;

/// Why a paste request was refused.
#[derive(Debug, Clone, Copy, PartialEq, Eq, Structural)]
pub enum RequestError {
    /// `content` is empty ("content must not be empty").
    EmptyContent,
}

/// Whether a paste request meets its rules: its content is at least one
/// character long.
pub open spec fn request_valid(req: PasteRequest) -> bool {
    length_ok(req.content@.len(), Some(1), None, None)
}

impl PasteRequest {
    /// Checks the request against its rules.
    pub fn validate(&self) -> (r: Result<(), RequestError>)
        ensures
            r is Ok <==> request_valid(*self),
            r is Ok <==> self.content@.len() >= 1,
            r matches Err(e) ==> e == RequestError::EmptyContent,
    {
        if validate_length(&self.content, Some(1), None, None) {
            Ok(())
        } else {
            Err(RequestError::EmptyContent)
        }
    }
}

impl PasteRow {
    /// The reply body that announces this row: its id and timestamps.
    pub fn response(&self) -> (r: PasteResponse)
        ensures
            r.id@ == self.id@,
            r.created_at == self.created_at,
            r.expires_at == self.expires_at,
    {
        PasteResponse { id: self.id.clone(), created_at: self.created_at, expires_at: self.expires_at }
    }
}

} // verus!
