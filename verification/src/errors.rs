//! The error types of the calendar core and of the event store.

use vstd::prelude::*;
use vstd::string::StringExecFns;

verus! {

/// An error of the calendar core, with its message.
#[derive(Debug, Clone, PartialEq, Eq)]
pub enum CoreError {
    ValidationError(String),
    ParseError(String),
    IoError(String),
    JsonError(String),
    DatabaseError(String),
    ApiError(String),
    NotFound(String),
    Unknown(String),
}

/// An error of the event store.
#[derive(Debug, Clone, PartialEq, Eq)]
pub enum StorageError {
    ConnectionFailed(String),
    QueryFailed(String),
    MigrationFailed(String),
    TransactionFailed(String),
    NotFound,
    Unknown(String),
}

impl CoreError {
    /// The text in front of the message, by variant.
    pub open spec fn prefix(self) -> Seq<char> {
        match self {
            CoreError::ValidationError(_) => "Validation error: "@,
            CoreError::ParseError(_) => "Parse error: "@,
            CoreError::IoError(_) => "IO error: "@,
            CoreError::JsonError(_) => "JSON error: "@,
            CoreError::DatabaseError(_) => "Database error: "@,
            CoreError::ApiError(_) => "API error: "@,
            CoreError::NotFound(_) => "Not found: "@,
            CoreError::Unknown(_) => "Unknown error: "@,
        }
    }

    /// The message that the error carries.
    pub open spec fn detail(self) -> Seq<char> {
        match self {
            CoreError::ValidationError(m) => m@,
            CoreError::ParseError(m) => m@,
            CoreError::IoError(m) => m@,
            CoreError::JsonError(m) => m@,
            CoreError::DatabaseError(m) => m@,
            CoreError::ApiError(m) => m@,
            CoreError::NotFound(m) => m@,
            CoreError::Unknown(m) => m@,
        }
    }

    /// The error as one line of text: the variant's prefix, then the message.
    pub fn message(&self) -> (result: String)
        ensures
            result@ == self.prefix() + self.detail(),
    {
        match self {
            CoreError::ValidationError(m) => String::from_str("Validation error: ").concat(
                m.as_str(),
            ),
            CoreError::ParseError(m) => String::from_str("Parse error: ").concat(m.as_str()),
            CoreError::IoError(m) => String::from_str("IO error: ").concat(m.as_str()),
            CoreError::JsonError(m) => String::from_str("JSON error: ").concat(m.as_str()),
            CoreError::DatabaseError(m) => String::from_str("Database error: ").concat(m.as_str()),
            CoreError::ApiError(m) => String::from_str("API error: ").concat(m.as_str()),
            CoreError::NotFound(m) => String::from_str("Not found: ").concat(m.as_str()),
            CoreError::Unknown(m) => String::from_str("Unknown error: ").concat(m.as_str()),
        }
    }
}

impl StorageError {
    /// The text in front of the message, by variant.
    pub open spec fn prefix(self) -> Seq<char> {
        match self {
            StorageError::ConnectionFailed(_) => "Connection failed: "@,
            StorageError::QueryFailed(_) => "Query failed: "@,
            StorageError::MigrationFailed(_) => "Migration failed: "@,
            StorageError::TransactionFailed(_) => "Transaction failed: "@,
            StorageError::NotFound => "Not found"@,
            StorageError::Unknown(_) => "Unknown error: "@,
        }
    }

    /// The message that the error carries; empty for `NotFound`.
    pub open spec fn detail(self) -> Seq<char> {
        match self {
            StorageError::ConnectionFailed(m) => m@,
            StorageError::QueryFailed(m) => m@,
            StorageError::MigrationFailed(m) => m@,
            StorageError::TransactionFailed(m) => m@,
            StorageError::NotFound => Seq::<char>::empty(),
            StorageError::Unknown(m) => m@,
        }
    }

    /// The error as one line of text: the variant's prefix, then the message.
    pub fn message(&self) -> (result: String)
        ensures
            result@ == self.prefix() + self.detail(),
    {
        match self {
            StorageError::ConnectionFailed(m) => String::from_str("Connection failed: ").concat(
                m.as_str(),
            ),
            StorageError::QueryFailed(m) => String::from_str("Query failed: ").concat(m.as_str()),
            StorageError::MigrationFailed(m) => String::from_str("Migration failed: ").concat(
                m.as_str(),
            ),
            StorageError::TransactionFailed(m) => String::from_str("Transaction failed: ").concat(
                m.as_str(),
            ),
            StorageError::NotFound => {
                let text = String::from_str("Not found");
                assert(text@ + Seq::<char>::empty() =~= text@);
                text
            },
            StorageError::Unknown(m) => String::from_str("Unknown error: ").concat(m.as_str()),
        }
    }
}

} // verus!
