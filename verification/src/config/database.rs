//! SQLite database settings.

use vstd::prelude::*;

use crate::text;

verus! {

/// Database configuration.
#[derive(Debug, Clone)]
pub struct DatabaseConfig {
    /// Path to the SQLite database file.
    pub path: String,
    /// Maximum number of connections in the pool.
    pub max_connections: u32,
    /// Whether to run migrations on startup.
    pub run_migrations: bool,
}

/// Default database file.
pub fn default_db_path() -> (s: String)
    ensures
        s@ == "pisovereign.db"@,
{
    text::owned("pisovereign.db")
}

/// Default size of the connection pool.
pub fn default_max_connections() -> (n: u32)
    ensures
        n == 5,
{
    5
}

impl Default for DatabaseConfig {
    fn default() -> (c: Self)
        ensures
            c.path@ == "pisovereign.db"@,
            c.max_connections == 5,
            c.run_migrations,
    {
        DatabaseConfig {
            path: default_db_path(),
            max_connections: default_max_connections(),
            run_migrations: true,
        }
    }
}

} // verus!
