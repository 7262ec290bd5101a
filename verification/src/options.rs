//! Connection options for the surrounding process's storage and cache
//! collaborators. Only the plain option values live here; opening the
//! connections is the surrounding process's work.

use vstd::prelude::*;

verus! {

/// What a cache backend must tell the process to connect to it.
pub trait CacheOption {
    /// The URL the option renders to.
    spec fn spec_connection_url(&self) -> Seq<char>;

    fn connection_url(&self) -> (r: String)
        ensures
            r@ == self.spec_connection_url(),
    ;
}

/// Options of the Redis-backed cache.
#[derive(Debug)]
pub struct RedisOption {
    pub connection_url: String,
}

impl CacheOption for RedisOption {
    open spec fn spec_connection_url(&self) -> Seq<char> {
        self.connection_url@
    }

    fn connection_url(&self) -> (r: String) {
        self.connection_url.clone()
    }
}

/// Marker for the Redis-backed cache; the surrounding process opens its
/// connection.
#[derive(Debug)]
pub struct RedisCache;

/// What a database backend must tell the process to connect to it.
pub trait DatabaseOption {
    /// The URL the option renders to.
    spec fn spec_connection_url(&self) -> Seq<char>;

    /// The configured ceiling on pooled connections.
    spec fn spec_max_connections(&self) -> u32;

    /// The configured floor on pooled connections.
    spec fn spec_min_connections(&self) -> u32;

    fn connection_url(&self) -> (r: String)
        ensures
            r@ == self.spec_connection_url(),
    ;

    fn max_connections(&self) -> (r: u32)
        ensures
            r == self.spec_max_connections(),
    ;

    fn min_connections(&self) -> (r: u32)
        ensures
            r == self.spec_min_connections(),
    ;
}

/// Options of the PostgreSQL database.
#[derive(Debug)]
pub struct PostgresOptions {
    pub connection_url: String,
    pub max_connections: u32,
    pub min_connections: u32,
}

impl DatabaseOption for PostgresOptions {
    open spec fn spec_connection_url(&self) -> Seq<char> {
        self.connection_url@
    }

    open spec fn spec_max_connections(&self) -> u32 {
        self.max_connections
    }

    open spec fn spec_min_connections(&self) -> u32 {
        self.min_connections
    }

    fn connection_url(&self) -> (r: String) {
        self.connection_url.clone()
    }

    fn max_connections(&self) -> (r: u32) {
        self.max_connections
    }

    fn min_connections(&self) -> (r: u32) {
        self.min_connections
    }
}

} // verus!
