//! Configuration handed to the database bootstrap.

use vstd::prelude::*;

verus! {

/// Where the database lives: the connection URL the bootstrap sequence
/// checks, creates and connects against.
pub struct DatabaseConfig {
    pub connection_url: String,
}

impl DatabaseConfig {
    /// Wrap a connection URL, keeping it unchanged.
    pub fn new(connection_url: String) -> (r: DatabaseConfig)
        ensures
            r.connection_url@ == connection_url@,
    {
        DatabaseConfig { connection_url }
    }
}

} // verus!
