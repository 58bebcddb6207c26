use vstd::prelude::*;

verus! {

/// Failure taxonomy of the storage core.
///
/// `StorageUnavailable` and `MigrationFailed` are fatal at startup; a
/// `QueryFailed` is a recoverable per-call failure; `TransactionAborted`
/// reports a multi-row operation that was rolled back completely.
#[derive(Debug, Clone, PartialEq, Eq, Structural)]
pub enum StoreError {
    StorageUnavailable,
    MigrationFailed { version: i64 },
    QueryFailed,
    TransactionAborted,
}

impl StoreError {
    /// A short human-readable description of the failure.
    pub fn describe(&self) -> (r: &'static str)
        ensures
            r@ == self.describe_spec(),
    {
        match self {
            StoreError::StorageUnavailable => "cannot open or create the database",
            StoreError::MigrationFailed { .. } => "a schema migration step failed",
            StoreError::QueryFailed => "a database operation failed",
            StoreError::TransactionAborted => "the transaction was rolled back",
        }
    }

    pub open spec fn describe_spec(self) -> Seq<char> {
        match self {
            StoreError::StorageUnavailable => "cannot open or create the database"@,
            StoreError::MigrationFailed { .. } => "a schema migration step failed"@,
            StoreError::QueryFailed => "a database operation failed"@,
            StoreError::TransactionAborted => "the transaction was rolled back"@,
        }
    }
}

} // verus!
