//! The failures that an operation on the store can report.

use crate::store::{
    engine_message, engine_text, is_unique_failure, is_unique_violation, json_error_text,
    json_message,
};
use vstd::prelude::*;
use vstd::string::StringExecFns;

verus! {

/// Why an operation failed.
#[derive(Debug)]
pub enum StoreError {
    /// The engine refused or could not run a statement.
    Sqlite(rusqlite::Error),
    /// A JSON value could not be written or read.
    Json(serde_json::Error),
    /// No connection to the store has been set up yet.
    DbConnection,
    /// The row that the operation names does not exist.
    NotFound,
    /// Another invoice already carries the requested number.
    DuplicateNumber,
}

impl StoreError {
    /// The text shown for the failure: for one with an underlying cause the
    /// cause's own text, for the others a fixed sentence.
    pub open spec fn message_text(self) -> Seq<char> {
        match self {
            StoreError::Sqlite(e) => engine_text(e),
            StoreError::Json(e) => json_error_text(e),
            StoreError::DbConnection => "Database connection not available"@,
            StoreError::NotFound => "Not Found"@,
            StoreError::DuplicateNumber => "Duplicate invoice number"@,
        }
    }

    /// The message handed to the caller at the boundary.
    pub fn message(&self) -> (r: String)
        ensures
            r@ == self.message_text(),
    {
        match self {
            StoreError::Sqlite(e) => engine_message(e),
            StoreError::Json(e) => json_message(e),
            StoreError::DbConnection => String::from_str("Database connection not available"),
            StoreError::NotFound => String::from_str("Not Found"),
            StoreError::DuplicateNumber => String::from_str("Duplicate invoice number"),
        }
    }

    /// Sorts a failed insert: a broken UNIQUE constraint is a duplicate number,
    /// anything else stays a storage failure with its cause.
    pub fn from_insert_failure(cause: rusqlite::Error, unique_violation: bool) -> (r: StoreError)
        ensures
            unique_violation ==> r == StoreError::DuplicateNumber,
            !unique_violation ==> r == StoreError::Sqlite(cause),
    {
        if unique_violation {
            StoreError::DuplicateNumber
        } else {
            StoreError::Sqlite(cause)
        }
    }

    /// The failure to report for an insert that the engine refused with
    /// `cause`: a duplicate number where the cause is a broken UNIQUE
    /// constraint, and else the storage failure with that cause.
    pub fn insert_failure(cause: rusqlite::Error) -> (r: StoreError)
        ensures
            is_unique_failure(cause) ==> r == StoreError::DuplicateNumber,
            !is_unique_failure(cause) ==> r == StoreError::Sqlite(cause),
    {
        let unique = is_unique_violation(&cause);
        StoreError::from_insert_failure(cause, unique)
    }
}

} // verus!
