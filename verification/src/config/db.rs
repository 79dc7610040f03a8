//! How to reach the database, and how many connections to hold.

use vstd::prelude::*;

verus! {

/// The settings of the connection pool. Timeouts are in seconds.
#[derive(Debug, Clone, PartialEq, Eq)]
pub struct DatabaseConfig {
    pub url: String,
    pub connect_timeout: u64,
    pub idle_timeout: u64,
    pub max_connections: u32,
    pub min_connections: u32,
}

impl DatabaseConfig {
    pub fn new(
        url: String,
        connect_timeout: u64,
        idle_timeout: u64,
        max_connections: u32,
        min_connections: u32,
    ) -> (r: DatabaseConfig)
        ensures
            r.url == url,
            r.connect_timeout == connect_timeout,
            r.idle_timeout == idle_timeout,
            r.max_connections == max_connections,
            r.min_connections == min_connections,
    {
        DatabaseConfig { url, connect_timeout, idle_timeout, max_connections, min_connections }
    }

    pub fn url(&self) -> (r: &str)
        ensures
            r@ == self.url@,
    {
        self.url.as_str()
    }

    pub fn connect_timeout(&self) -> (r: u64)
        ensures
            r == self.connect_timeout,
    {
        self.connect_timeout
    }

    pub fn idle_timeout(&self) -> (r: u64)
        ensures
            r == self.idle_timeout,
    {
        self.idle_timeout
    }

    pub fn max_connections(&self) -> (r: u32)
        ensures
            r == self.max_connections,
    {
        self.max_connections
    }

    pub fn min_connections(&self) -> (r: u32)
        ensures
            r == self.min_connections,
    {
        self.min_connections
    }
}

} // verus!
