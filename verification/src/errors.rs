//! The error classification for database initialization failures.

use vstd::prelude::*;

verus! {

/// Why database initialization failed. The underlying cause is logged at the
/// failure site; this type only classifies it.
#[derive(Clone, Copy, PartialEq, Eq, Structural, Debug)]
pub enum DatabaseError {
    /// An environment lookup (the migrations directory root) failed.
    Environment,
    /// Loading or applying the schema migrations failed.
    Migration,
    /// A statement against the database failed.
    DummyData,
}

impl DatabaseError {
    /// A short human-readable description of the failure class.
    pub fn message(&self) -> (r: &'static str)
        ensures
            *self is Environment ==> r@ == "Failed to load environment error"@,
            *self is Migration ==> r@ == "Failed to migrate database"@,
            *self is DummyData ==> r@ == "Failed to create dummy data"@,
    {
        match self {
            DatabaseError::Environment => "Failed to load environment error",
            DatabaseError::Migration => "Failed to migrate database",
            DatabaseError::DummyData => "Failed to create dummy data",
        }
    }
}

} // verus!
