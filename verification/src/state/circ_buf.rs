use vstd::prelude::*;

use crate::state::{validator_history_entry::ValidatorHistoryEntry, MAX_ITEMS};

verus! {

/// Ring buffer of validator history entries; `idx` is the slot of the latest entry.
#[derive(Debug, Clone, Copy)]
pub struct CircBuf {
    pub idx: u64,
    pub is_empty: u8,
    pub padding: [u8; 7],
    pub arr: [ValidatorHistoryEntry; MAX_ITEMS],
}

} // verus!
