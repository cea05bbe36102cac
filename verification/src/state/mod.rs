use vstd::prelude::*;

pub mod circ_buf;
pub mod circ_buf_cluster;
pub mod client_version;
pub mod cluster_history;
pub mod cluster_history_entry;
pub mod config;
pub mod merkle_root_upload_authority;
pub mod validator_history;
pub mod validator_history_entry;
pub mod vote_state;
pub mod vote_state_encoding;

verus! {

/// `11111111111111111111111111111111`: marks a tip distribution account whose merkle root
/// upload authority does not exist.
pub const DNE_AUTHORITY: [u8; 32] = [
    0, 0, 0, 0, 0, 0, 0, 0, 0, 0, 0, 0, 0, 0, 0, 0,
    0, 0, 0, 0, 0, 0, 0, 0, 0, 0, 0, 0, 0, 0, 0, 0,
];

/// `GZctHpWXmsZC1YHACTGGcHhYxjdRqQvTpYkb9LMvxDib`.
pub const JITO_LABS_AUTHORITY: [u8; 32] = [
    231, 58, 118, 220, 168, 24, 79, 248, 124, 96, 245, 44, 232, 194, 72, 29,
    208, 100, 34, 146, 230, 9, 157, 206, 157, 121, 118, 241, 164, 75, 41, 68,
];

/// `8F4jGUmxF36vQ6yabnsxX6AQVXdKBhs8kGSUuRKSg8Xt`.
pub const TIP_ROUTER_AUTHORITY: [u8; 32] = [
    107, 156, 39, 233, 191, 44, 226, 135, 27, 134, 160, 228, 127, 97, 172, 101,
    176, 0, 195, 47, 239, 220, 156, 34, 121, 97, 87, 77, 129, 206, 75, 227,
];

/// `Vote111111111111111111111111111111111111111`: the vote program, owner of vote accounts.
pub const VOTE_PROGRAM_ID: [u8; 32] = [
    7, 97, 72, 29, 53, 116, 116, 187, 124, 77, 118, 36, 235, 211, 189, 179,
    216, 53, 94, 115, 209, 16, 67, 252, 13, 163, 83, 128, 0, 0, 0, 0,
];

/// Number of entries held by each history ring buffer.
pub const MAX_ITEMS: usize = 512;

/// Largest number of bytes an account may grow by in one instruction.
pub const MAX_ALLOC_BYTES: usize = 10240;

/// Fewest epoch credit entries a vote account needs for a history account to be created.
pub const MIN_VOTE_EPOCHS: usize = 5;

/// Layout versions of a validator history account.
pub enum ValidatorHistoryVersion {
    V0,
}

impl ValidatorHistoryVersion {
    /// The number stored for the version in an account's `struct_version` field.
    pub fn number(&self) -> (n: u32)
        ensures
            n == 0,
    {
        match self {
            ValidatorHistoryVersion::V0 => 0,
        }
    }
}

} // verus!
