//! The RPC dependency set. A handler is assembled once per inbound
//! connection from a consistent read-only view of the node: chain-head
//! queries, the pending-index reader, the finality voter state and the
//! authority snapshot. Building it captures state; it never re-runs any
//! initialization with side effects.

use crate::finality::{AuthoritySet, Vote};
use vstd::prelude::*;

verus! {

/// Everything one RPC connection needs, captured at build time.
#[derive(Debug)]
pub struct RpcDeps {
    /// Chain-store reader: the current best head.
    pub best_hash: u64,
    /// Chain-store reader: the current best height.
    pub best_number: u64,
    /// Chain-store reader: the current finalized head.
    pub finalized_hash: u64,
    /// Whether this node runs as an authority.
    pub is_authority: bool,
    /// Whether unsafe RPC methods are denied on this connection.
    pub deny_unsafe: bool,
    /// Development-only signing endpoints; never enabled here.
    pub enable_dev_signer: bool,
    /// Pending-index reader: how many index entries exist.
    pub pending_index_len: usize,
    /// Read-only snapshot of the finality voter state.
    pub voter_state: Vec<Vote>,
    /// Copy-on-read snapshot of the authority set.
    pub authority_set: AuthoritySet,
    /// Justification-stream reader: how many justifications exist.
    pub justification_count: usize,
    /// Cap on how far back log queries may reach.
    pub max_past_logs: u32,
}

/// The cap on past log queries every connection gets.
pub fn default_max_past_logs() -> (r: u32)
    ensures
        r == 10000u32,
{
    10000u32
}

} // verus!
