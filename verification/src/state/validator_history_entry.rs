use vstd::prelude::*;

use crate::state::{
    client_version::ClientVersion, merkle_root_upload_authority::MerkleRootUploadAuthority,
};

verus! {

/// One epoch of a validator's history. A field that holds its type's largest value (or
/// `Unset`) has not been set yet.
#[derive(Debug, Clone, Copy)]
pub struct ValidatorHistoryEntry {
    /// Activated stake lamports
    pub activated_stake_lamports: u64,
    /// Epoch
    pub epoch: u16,
    /// MEV commission in basis points
    pub mev_commission: u16,
    /// Number of successful votes in current epoch. Not finalized until subsequent epoch
    pub epoch_credits: u32,
    /// Validator commission in points
    pub commission: u8,
    /// 0 if Solana Labs client, 1 if Jito client, >1 if other
    pub client_type: u8,
    /// Version
    pub version: ClientVersion,
    /// IP address
    pub ip: [u8; 4],
    /// The enum mapping of the Validator's Tip Distribution Account's merkle root upload authority
    pub merkle_root_upload_authority: MerkleRootUploadAuthority,
    /// 0 if not a superminority validator, 1 if superminority validator
    pub is_superminority: u8,
    /// rank of validator by stake amount
    pub rank: u32,
    /// Most recent updated slot for epoch credits and commission
    pub vote_account_last_update_slot: u64,
    /// MEV earned, stored as 1/100th SOL. mev_earned = 100 means 1.00 SOL earned
    pub mev_earned: u32,
    /// Priority Fee commission in basis points
    pub priority_fee_commission: u16,
    pub padding0: [u8; 2],
    /// Priority Fee tips that were transferred to the distribution account in lamports
    pub priority_fee_tips: u64,
    /// The total priority fees the validator earned for the epoch.
    pub total_priority_fees: u64,
    /// The number of leader slots the validator had during the epoch
    pub total_leader_slots: u32,
    /// The final number of blocks the validator produced during an epoch
    pub blocks_produced: u32,
    /// The last slot the block data was last updated at
    pub block_data_updated_at_slot: u64,
    /// The enum mapping of the Validator's Tip Distribution Account's merkle root upload authority
    pub priority_fee_merkle_root_upload_authority: MerkleRootUploadAuthority,
    pub padding1: [u8; 47],
}

/// Bytes one entry takes in account data.
pub const VALIDATOR_HISTORY_ENTRY_BYTES: usize = 128;

} // verus!
