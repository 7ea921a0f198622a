//! The fixed settings of the service's connections and sessions.

use vstd::prelude::*;

verus! {

/// The most connections the pool of the relational store keeps open.
pub const POOL_MAX_CONNECTIONS: u32 = 10;

/// The fewest connections the pool of the relational store keeps open.
pub const POOL_MIN_CONNECTIONS: u32 = 1;

/// For how many seconds a caller waits for a connection of the pool.
pub const POOL_ACQUIRE_TIMEOUT_SECS: u64 = 10;

/// After how many idle seconds a connection of the pool is closed.
pub const POOL_IDLE_TIMEOUT_SECS: u64 = 60;

/// After how many seconds a connection of the pool is replaced.
pub const POOL_MAX_LIFETIME_SECS: u64 = 1800;

/// The number of connections in the pool of the session store.
pub const SESSION_POOL_SIZE: usize = 10;

/// After how many minutes without a request a session cookie runs out.
pub const SESSION_IDLE_MINUTES: i64 = 10;

/// Whether the session cookie is sent over encrypted connections only.
pub const SESSION_COOKIE_SECURE: bool = false;

} // verus!
