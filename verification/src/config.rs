//! The fixed settings of the gateway.

use vstd::prelude::*;

verus! {

/// Whether the gateway prints what it sends upstream.
pub const DEFAULT_GATEWAY_DEBUG: bool = false;

/// Seconds that the upstream client waits for a connection.
pub const DEFAULT_UPSTREAM_CONNECT_TIMEOUT_SECS: u64 = 15;

/// Seconds that an idle upstream connection stays in the pool.
pub const UPSTREAM_POOL_IDLE_TIMEOUT_SECS: u64 = 90;

/// Idle upstream connections that the pool keeps for one host.
pub const UPSTREAM_POOL_MAX_IDLE_PER_HOST: usize = 32;

/// Seconds between TCP keepalive probes on upstream connections.
pub const UPSTREAM_TCP_KEEPALIVE_SECS: u64 = 30;

/// The most requests in flight on one account; 0 sets no limit.
pub const DEFAULT_ACCOUNT_MAX_INFLIGHT: usize = 0;

/// Whether the gateway notes in the store when a platform key was last
/// used. It is off, to keep requests from contending for the store.
pub const PERSIST_KEY_LAST_USED: bool = false;

/// The time that the upstream client waits for a connection, in seconds.
pub fn upstream_connect_timeout() -> (out: u64)
    ensures
        out == DEFAULT_UPSTREAM_CONNECT_TIMEOUT_SECS,
{
    DEFAULT_UPSTREAM_CONNECT_TIMEOUT_SECS
}

/// The most requests in flight on one account; 0 sets no limit.
pub fn account_max_inflight_limit() -> (out: usize)
    ensures
        out == DEFAULT_ACCOUNT_MAX_INFLIGHT,
{
    DEFAULT_ACCOUNT_MAX_INFLIGHT
}

} // verus!
