use vstd::prelude::*;

use crate::state::{circ_buf_cluster::CircBufCluster, MAX_ITEMS};

verus! {

/// Cluster-wide history account.
pub struct ClusterHistory {
    pub struct_version: u64,
    pub bump: u8,
    pub _padding0: [u8; 7],
    pub cluster_history_last_update_slot: u64,
    pub _padding1: [u8; 232],
    pub history: CircBufCluster,
}

/// Bytes one cluster history entry takes.
pub const CLUSTER_HISTORY_ENTRY_BYTES: usize = 256;

impl ClusterHistory {
    /// Bytes of the account: discriminator (8), header (256) and ring buffer (16 + entries).
    pub const SIZE: usize = 8 + 256 + 16 + MAX_ITEMS * CLUSTER_HISTORY_ENTRY_BYTES;
    pub const MAX_ITEMS: usize = MAX_ITEMS;
    /// The ASCII bytes of `cluster-history`, the seed of the account's program address.
    pub const SEED: [u8; 15] = [99, 108, 117, 115, 116, 101, 114, 45, 104, 105, 115, 116, 111, 114, 121];
}

} // verus!
