//! Partial readers for the bincode encoding of Solana vote account state.
//!
//! A vote state is too large to decode in full within an instruction's compute budget, so
//! these functions walk the raw bytes and pick out single fields. Every reader is stated
//! against a spec function over the account bytes.
use vstd::prelude::*;

use crate::errors::InstructionError;

verus! {

broadcast use vstd::slice::group_slice_axioms;

/// Capacity of the prior-voters ring buffer inside a vote state.
pub const PRIOR_VOTERS_ITEMS: usize = 32;

pub const COLLECTION_LEN_BYTES: usize = 8;
pub const ENUM_LEN_BYTES: usize = 4;
pub const SLOT_BYTES: usize = 8;
pub const EPOCH_BYTES: usize = 8;
pub const PUBKEY_BYTES: usize = 32;

/// Offset of the commission byte in a `Current` vote state: tag + 4 pubkeys.
pub const VOTE_STATE_COMMISSION_INDEX: usize = 132;
/// Offset of the commission byte in a `V1_16_0` vote state: tag + 2 pubkeys.
pub const VOTE_STATE_1_16_0_COMMISSION_INDEX: usize = 68;
/// Offset of the commission byte in a `V1_14_11` vote state: tag + 2 pubkeys.
pub const VOTE_STATE_1_14_1_COMMISSION_INDEX: usize = 68;
/// Offset of the commission byte in a `V0_23_5` vote state: tag + 2 pubkeys + epoch
/// + prior voters (32 × (pubkey + 2 epochs + slot) + index + flag) + pubkey.
pub const VOTE_STATE_0_23_5_COMMISSION_INDEX: usize = 1909;

pub const INFLATION_REWARDS_COMMISSION_BPS_BYTES: usize = 2;
pub const BLOCK_REVENUE_COMMISSION_BPS_BYTES: usize = 2;
pub const PENDING_DELEGATOR_REWARDS_BYTES: usize = 8;

/// Size of one `(epoch, credits, prev_credits)` entry.
pub const EPOCH_CREDITS_ENTRY_BYTES: usize = 24;

/// Size of a compressed BLS public key.
pub const BLS_PUBKEY_BYTES: usize = 48;

/// Offset of the votes collection in `V0_23_5`: the prior voters start after tag, two
/// pubkeys and an epoch; the votes follow them, a pubkey and the commission byte.
pub const V0_23_5_VOTES_INDEX: usize = ENUM_LEN_BYTES + 2 * PUBKEY_BYTES + EPOCH_BYTES
    + PRIOR_VOTERS_ITEMS * (PUBKEY_BYTES + 2 * EPOCH_BYTES + SLOT_BYTES) + 8 + 1 + PUBKEY_BYTES + 1;
/// Offset of the votes collection in `V1_14_11` and `V1_16_0`: tag, two pubkeys, commission.
pub const V1_VOTES_INDEX: usize = ENUM_LEN_BYTES + 2 * PUBKEY_BYTES + 1;
/// Size of the prior voters ring buffer in `V1_14_11` and `V1_16_0`:
/// 32 × (pubkey + 2 epochs) + index + flag.
pub const V1_PRIOR_VOTERS_BYTES: usize = PRIOR_VOTERS_ITEMS * (PUBKEY_BYTES + 2 * EPOCH_BYTES) + 8 + 1;
/// Offset of the BLS key option tag in a `Current` vote state: tag, four pubkeys, two
/// commission rates and the pending delegator rewards.
pub const CURRENT_BLS_OPTION_INDEX: usize = ENUM_LEN_BYTES + 4 * PUBKEY_BYTES
    + INFLATION_REWARDS_COMMISSION_BPS_BYTES + BLOCK_REVENUE_COMMISSION_BPS_BYTES
    + PENDING_DELEGATOR_REWARDS_BYTES;

/// Size of a vote in `V0_23_5` and `V1_14_11`: slot + confirmation count.
pub const LOCKOUT_BYTES: usize = SLOT_BYTES + 4;
/// Size of a landed vote in `V1_16_0` and `Current`: latency + slot + confirmation count.
pub const LANDED_VOTE_BYTES: usize = 1 + SLOT_BYTES + 4;
/// Size of one authorized voter: epoch + pubkey.
pub const AUTHORIZED_VOTER_BYTES: usize = EPOCH_BYTES + PUBKEY_BYTES;

/// The little-endian `u32` stored at `s[i..i + 4]`.
pub open spec fn le_u32_at(s: Seq<u8>, i: int) -> int {
    s[i] + 256 * s[i + 1] + 65536 * s[i + 2] + 16777216 * s[i + 3]
}

/// The little-endian `u64` stored at `s[i..i + 8]`.
pub open spec fn le_u64_at(s: Seq<u8>, i: int) -> int {
    le_u32_at(s, i) + 4294967296 * le_u32_at(s, i + 4)
}

/// The vote state version tag at the start of the account, if the account holds one.
pub open spec fn spec_version_tag(s: Seq<u8>) -> Option<int> {
    if s.len() < ENUM_LEN_BYTES {
        None
    } else {
        Some(le_u32_at(s, 0))
    }
}

/// Offset of the commission byte for a version tag; `None` for an unknown tag.
pub open spec fn spec_commission_index(tag: int) -> Option<int> {
    if tag == 0 {
        Some(VOTE_STATE_0_23_5_COMMISSION_INDEX as int)
    } else if tag == 1 {
        Some(VOTE_STATE_1_14_1_COMMISSION_INDEX as int)
    } else if tag == 2 {
        Some(VOTE_STATE_1_16_0_COMMISSION_INDEX as int)
    } else if tag == 3 {
        Some(VOTE_STATE_COMMISSION_INDEX as int)
    } else {
        None
    }
}

/// The commission of the vote state in `s`: the byte at the version's commission offset.
pub open spec fn spec_commission(s: Seq<u8>) -> Result<u8, InstructionError> {
    match spec_version_tag(s) {
        None => Err(InstructionError::InvalidAccountData),
        Some(tag) => match spec_commission_index(tag) {
            None => Err(InstructionError::InvalidAccountData),
            Some(idx) => if s.len() < idx + 1 {
                Err(InstructionError::InvalidAccountData)
            } else {
                Ok(s[idx])
            },
        },
    }
}

/// Reading a collection length at `index`: the length, cast to `usize`, when the 8 bytes
/// are present.
pub open spec fn spec_collection_length(s: Seq<u8>, index: int) -> Result<
    usize,
    InstructionError,
> {
    if s.len() < index + COLLECTION_LEN_BYTES {
        Err(InstructionError::InvalidAccountData)
    } else {
        Ok(le_u64_at(s, index) as usize)
    }
}

/// Reading the epoch credits collection at `index`: its length, provided the data holds
/// all its entries.
pub open spec fn spec_epoch_credits_count_at(s: Seq<u8>, index: int) -> Result<
    usize,
    InstructionError,
> {
    match spec_collection_length(s, index) {
        Ok(n) => if s.len() < index + COLLECTION_LEN_BYTES + n * EPOCH_CREDITS_ENTRY_BYTES {
            Err(InstructionError::InvalidAccountData)
        } else {
            Ok(n)
        },
        Err(e) => Err(e),
    }
}

/// Position just after the optional root slot that follows the votes collection at
/// `votes_index`, each vote taking `vote_bytes` bytes; an error when the root slot lies
/// outside the data.
pub open spec fn spec_after_root_slot(s: Seq<u8>, votes_index: int, vote_bytes: int) -> Result<
    int,
    InstructionError,
> {
    match spec_collection_length(s, votes_index) {
        Ok(n) => {
            let root = votes_index + COLLECTION_LEN_BYTES + n * vote_bytes;
            if root >= s.len() {
                Err(InstructionError::InvalidAccountData)
            } else if s[root] == 0 {
                Ok(root + 1)
            } else if s[root] == 1 {
                if root + 1 + SLOT_BYTES > s.len() {
                    Err(InstructionError::InvalidAccountData)
                } else {
                    Ok(root + 1 + SLOT_BYTES)
                }
            } else {
                Err(InstructionError::InvalidAccountData)
            }
        },
        Err(e) => Err(e),
    }
}

/// Position just after the authorized voters map at `index` and the `extra` bytes that
/// follow it; an error when that position lies past the end of the data.
pub open spec fn spec_after_authorized_voters(s: Seq<u8>, index: int, extra: int) -> Result<
    int,
    InstructionError,
> {
    match spec_collection_length(s, index) {
        Ok(m) => {
            let end = index + COLLECTION_LEN_BYTES + m * AUTHORIZED_VOTER_BYTES + extra;
            if end > s.len() {
                Err(InstructionError::InvalidAccountData)
            } else {
                Ok(end)
            }
        },
        Err(e) => Err(e),
    }
}

/// The epoch credits count of the vote state versions that keep authorized voters:
/// votes, root slot, authorized voters, `prior_voters_bytes` bytes, then epoch credits.
pub open spec fn spec_count_from_votes(
    s: Seq<u8>,
    votes_index: int,
    vote_bytes: int,
    prior_voters_bytes: int,
) -> Result<usize, InstructionError> {
    match spec_after_root_slot(s, votes_index, vote_bytes) {
        Ok(av) => match spec_after_authorized_voters(s, av, prior_voters_bytes) {
            Ok(ec) => spec_epoch_credits_count_at(s, ec),
            Err(e) => Err(e),
        },
        Err(e) => Err(e),
    }
}

/// The number of epoch credit entries of the vote state in `s`, computed over unbounded
/// integers: the count stored at the epoch credits position, provided every byte read on
/// the way and all the entries lie inside the data; else `InvalidAccountData`. An unknown
/// version tag counts as no entries.
#[verifier::opaque]
pub open spec fn spec_epoch_credits_count(s: Seq<u8>) -> Result<usize, InstructionError> {
    match spec_version_tag(s) {
        None => Err(InstructionError::InvalidAccountData),
        Some(tag) => if tag == 0 {
            match spec_after_root_slot(s, V0_23_5_VOTES_INDEX as int, LOCKOUT_BYTES as int) {
                Ok(ec) => spec_epoch_credits_count_at(s, ec),
                Err(e) => Err(e),
            }
        } else if tag == 1 {
            spec_count_from_votes(
                s,
                V1_VOTES_INDEX as int,
                LOCKOUT_BYTES as int,
                V1_PRIOR_VOTERS_BYTES as int,
            )
        } else if tag == 2 {
            spec_count_from_votes(
                s,
                V1_VOTES_INDEX as int,
                LANDED_VOTE_BYTES as int,
                V1_PRIOR_VOTERS_BYTES as int,
            )
        } else if tag == 3 {
            let bls = CURRENT_BLS_OPTION_INDEX as int;
            if bls >= s.len() {
                Err(InstructionError::InvalidAccountData)
            } else if s[bls] == 0 {
                spec_count_from_votes(s, bls + 1, LANDED_VOTE_BYTES as int, 0)
            } else if s[bls] == 1 {
                spec_count_from_votes(s, bls + 1 + BLS_PUBKEY_BYTES, LANDED_VOTE_BYTES as int, 0)
            } else {
                Err(InstructionError::InvalidAccountData)
            }
        } else {
            Ok(0)
        },
    }
}

/// The data reaches past the node pubkey, the 32 bytes after the version tag.
pub open spec fn spec_node_pubkey_present(s: Seq<u8>) -> bool {
    s.len() >= ENUM_LEN_BYTES + PUBKEY_BYTES
}

/// The data holds a collection length equal to `n` at `index`, and `n` epoch credit
/// entries after it.
pub open spec fn holds_epoch_credits_at(s: Seq<u8>, index: int, n: usize) -> bool {
    &&& 0 <= index
    &&& index + COLLECTION_LEN_BYTES + n * EPOCH_CREDITS_ENTRY_BYTES <= s.len()
    &&& le_u64_at(s, index) as usize == n
}

proof fn lemma_count_at_holds(s: Seq<u8>, index: int, n: usize)
    requires
        0 <= index,
        spec_epoch_credits_count_at(s, index) == Ok::<usize, InstructionError>(n),
    ensures
        holds_epoch_credits_at(s, index, n),
{
}

/// A count of epoch credits read from a vote state of a known version (tags 0 to 3) is
/// the length of a collection stored in the data, and the data holds that many entries
/// after it.
pub proof fn lemma_epoch_credits_count_is_held(s: Seq<u8>, n: usize)
    requires
        spec_epoch_credits_count(s) == Ok::<usize, InstructionError>(n),
        ENUM_LEN_BYTES <= s.len(),
        le_u32_at(s, 0) <= 3,
    ensures
        exists|index: int| holds_epoch_credits_at(s, index, n),
{
    reveal(spec_epoch_credits_count);
    let tag = le_u32_at(s, 0);
    let bls = CURRENT_BLS_OPTION_INDEX as int;
    let (votes, vote_bytes, prior) = if tag == 0 {
        (V0_23_5_VOTES_INDEX as int, LOCKOUT_BYTES as int, 0int)
    } else if tag == 1 {
        (V1_VOTES_INDEX as int, LOCKOUT_BYTES as int, V1_PRIOR_VOTERS_BYTES as int)
    } else if tag == 2 {
        (V1_VOTES_INDEX as int, LANDED_VOTE_BYTES as int, V1_PRIOR_VOTERS_BYTES as int)
    } else if s[bls] == 0 {
        (bls + 1, LANDED_VOTE_BYTES as int, 0int)
    } else {
        (bls + 1 + BLS_PUBKEY_BYTES, LANDED_VOTE_BYTES as int, 0int)
    };
    if let Ok(av) = spec_after_root_slot(s, votes, vote_bytes) {
        if tag == 0 {
            lemma_count_at_holds(s, av, n);
        } else if let Ok(ec) = spec_after_authorized_voters(s, av, prior) {
            lemma_count_at_holds(s, ec, n);
        }
    }
}

/// Reads the little-endian `u32` at `data[index..index + 4]`.
fn read_u32_le(data: &[u8], index: usize) -> (value: u32)
    requires
        index + 4 <= data@.len(),
    ensures
        value == le_u32_at(data@, index as int),
{
    let b0 = data[index] as u32;
    let b1 = data[index + 1] as u32;
    let b2 = data[index + 2] as u32;
    let b3 = data[index + 3] as u32;
    b0 + 256 * b1 + 65536 * b2 + 16777216 * b3
}

/// Reads the little-endian `u64` at `data[index..index + 8]`.
fn read_u64_le(data: &[u8], index: usize) -> (value: u64)
    requires
        index + 8 <= data@.len(),
    ensures
        value == le_u64_at(data@, index as int),
{
    assert(data@.len() == data.len());
    let lo = read_u32_le(data, index) as u64;
    let hi = read_u32_le(data, index + 4) as u64;
    lo + 4294967296 * hi
}

fn collection_length_at_index(data: &[u8], index: usize) -> (res: Result<usize, InstructionError>)
    ensures
        res == spec_collection_length(data@, index as int),
{
    assert(data@.len() == data.len());
    if index > usize::MAX - COLLECTION_LEN_BYTES {
        return Err(InstructionError::InvalidAccountData);
    }
    let end = index + COLLECTION_LEN_BYTES;
    if data.len() < end {
        return Err(InstructionError::InvalidAccountData);
    }
    Ok(read_u64_le(data, index) as usize)
}

fn enum_value_at_index(data: &[u8], index: usize) -> (res: Result<usize, InstructionError>)
    requires
        index + ENUM_LEN_BYTES <= usize::MAX,
    ensures
        index + ENUM_LEN_BYTES <= data@.len() ==> (res matches Ok(v) && v == le_u32_at(
            data@,
            index as int,
        )),
        index + ENUM_LEN_BYTES > data@.len() ==> res == Err::<usize, InstructionError>(
            InstructionError::InvalidAccountData,
        ),
{
    let end = index + ENUM_LEN_BYTES;
    if data.len() < end {
        return Err(InstructionError::InvalidAccountData);
    }
    Ok(read_u32_le(data, index) as usize)
}

/// Deserializes the commission from raw vote account data.
pub fn deserialize_commission(data: &[u8]) -> (res: Result<u8, InstructionError>)
    ensures
        res == spec_commission(data@),
{
    let enum_index = enum_value_at_index(data, 0)?;
    if enum_index == 0 {
        if data.len() < VOTE_STATE_0_23_5_COMMISSION_INDEX + 1 {
            return Err(InstructionError::InvalidAccountData);
        }
        Ok(data[VOTE_STATE_0_23_5_COMMISSION_INDEX])
    } else if enum_index == 1 {
        if data.len() < VOTE_STATE_1_14_1_COMMISSION_INDEX + 1 {
            return Err(InstructionError::InvalidAccountData);
        }
        Ok(data[VOTE_STATE_1_14_1_COMMISSION_INDEX])
    } else if enum_index == 2 {
        if data.len() < VOTE_STATE_1_16_0_COMMISSION_INDEX + 1 {
            return Err(InstructionError::InvalidAccountData);
        }
        Ok(data[VOTE_STATE_1_16_0_COMMISSION_INDEX])
    } else if enum_index == 3 {
        if data.len() < VOTE_STATE_COMMISSION_INDEX + 1 {
            return Err(InstructionError::InvalidAccountData);
        }
        Ok(data[VOTE_STATE_COMMISSION_INDEX])
    } else {
        Err(InstructionError::InvalidAccountData)
    }
}

/// A position read as `usize`, seen as an integer.
pub open spec fn position_as_int(r: Result<usize, InstructionError>) -> Result<int, InstructionError> {
    match r {
        Ok(p) => Ok(p as int),
        Err(e) => Err(e),
    }
}

/// Reads the epoch credits collection at `epoch_credits_idx` and checks that the data is
/// long enough to hold all its entries.
fn epoch_credits_count_at_index(data: &[u8], epoch_credits_idx: usize) -> (res: Result<
    usize,
    InstructionError,
>)
    ensures
        res == spec_epoch_credits_count_at(data@, epoch_credits_idx as int),
{
    assert(data@.len() == data.len());
    let epoch_credits_len = collection_length_at_index(data, epoch_credits_idx)?;
    let entries_start = epoch_credits_idx + COLLECTION_LEN_BYTES;
    let entries_bytes = match epoch_credits_len.checked_mul(EPOCH_CREDITS_ENTRY_BYTES) {
        Some(b) => b,
        None => return Err(InstructionError::InvalidAccountData),
    };
    let entries_end = match entries_start.checked_add(entries_bytes) {
        Some(e) => e,
        None => return Err(InstructionError::InvalidAccountData),
    };
    if data.len() < entries_end {
        return Err(InstructionError::InvalidAccountData);
    }
    Ok(epoch_credits_len)
}

/// Skips the votes collection at `votes_idx` and the optional root slot after it.
fn position_after_root_slot(data: &[u8], votes_idx: usize, vote_bytes: usize) -> (res: Result<
    usize,
    InstructionError,
>)
    ensures
        position_as_int(res) == spec_after_root_slot(data@, votes_idx as int, vote_bytes as int),
{
    assert(data@.len() == data.len());
    let votes_len = collection_length_at_index(data, votes_idx)?;
    let votes_total = match votes_len.checked_mul(vote_bytes) {
        Some(b) => b,
        None => return Err(InstructionError::InvalidAccountData),
    };
    let root_slot_idx = match (votes_idx + COLLECTION_LEN_BYTES).checked_add(votes_total) {
        Some(i) => i,
        None => return Err(InstructionError::InvalidAccountData),
    };
    if root_slot_idx >= data.len() {
        return Err(InstructionError::InvalidAccountData);
    }
    let root_slot_option_variant = data[root_slot_idx];
    if root_slot_option_variant == 0 {
        Ok(root_slot_idx + 1)
    } else if root_slot_option_variant == 1 {
        if root_slot_idx + 1 > data.len() - SLOT_BYTES {
            return Err(InstructionError::InvalidAccountData);
        }
        Ok(root_slot_idx + 1 + SLOT_BYTES)
    } else {
        Err(InstructionError::InvalidAccountData)
    }
}

/// Skips the authorized voters map at `index` and the `extra` bytes after it.
fn position_after_authorized_voters(data: &[u8], index: usize, extra: usize) -> (res: Result<
    usize,
    InstructionError,
>)
    ensures
        position_as_int(res) == spec_after_authorized_voters(data@, index as int, extra as int),
{
    assert(data@.len() == data.len());
    let authorized_voters_len = collection_length_at_index(data, index)?;
    let voters_bytes = match authorized_voters_len.checked_mul(AUTHORIZED_VOTER_BYTES) {
        Some(b) => b,
        None => return Err(InstructionError::InvalidAccountData),
    };
    let after_voters = match (index + COLLECTION_LEN_BYTES).checked_add(voters_bytes) {
        Some(i) => i,
        None => return Err(InstructionError::InvalidAccountData),
    };
    let end = match after_voters.checked_add(extra) {
        Some(i) => i,
        None => return Err(InstructionError::InvalidAccountData),
    };
    if end > data.len() {
        return Err(InstructionError::InvalidAccountData);
    }
    Ok(end)
}

/// Walks votes, root slot, authorized voters and `prior_voters_bytes` bytes to the epoch
/// credits and reads their count.
fn count_from_votes(
    data: &[u8],
    votes_idx: usize,
    vote_bytes: usize,
    prior_voters_bytes: usize,
) -> (res: Result<usize, InstructionError>)
    ensures
        res == spec_count_from_votes(
            data@,
            votes_idx as int,
            vote_bytes as int,
            prior_voters_bytes as int,
        ),
{
    let authorized_voters_idx = position_after_root_slot(data, votes_idx, vote_bytes)?;
    let epoch_credits_idx = position_after_authorized_voters(
        data,
        authorized_voters_idx,
        prior_voters_bytes,
    )?;
    epoch_credits_count_at_index(data, epoch_credits_idx)
}

/// Deserializes the number of `(epoch, credits, prev_credits)` entries from raw vote
/// account data, after checking that the data holds all of them. Lengths so large that
/// the entries could not fit in any data give `InvalidAccountData`.
pub fn deserialize_epoch_credits_count(data: &[u8]) -> (res: Result<usize, InstructionError>)
    ensures
        res == spec_epoch_credits_count(data@),
{
    reveal(spec_epoch_credits_count);
    let enum_index = enum_value_at_index(data, 0)?;
    if enum_index == 0 {
        let epoch_credits_idx = position_after_root_slot(
            data,
            V0_23_5_VOTES_INDEX,
            LOCKOUT_BYTES,
        )?;
        epoch_credits_count_at_index(data, epoch_credits_idx)
    } else if enum_index == 1 {
        count_from_votes(data, V1_VOTES_INDEX, LOCKOUT_BYTES, V1_PRIOR_VOTERS_BYTES)
    } else if enum_index == 2 {
        count_from_votes(data, V1_VOTES_INDEX, LANDED_VOTE_BYTES, V1_PRIOR_VOTERS_BYTES)
    } else if enum_index == 3 {
        let bls_key_option_variant_idx = CURRENT_BLS_OPTION_INDEX;
        if bls_key_option_variant_idx >= data.len() {
            return Err(InstructionError::InvalidAccountData);
        }
        let bls_variant = data[bls_key_option_variant_idx];
        if bls_variant == 0 {
            count_from_votes(data, bls_key_option_variant_idx + 1, LANDED_VOTE_BYTES, 0)
        } else if bls_variant == 1 {
            count_from_votes(
                data,
                bls_key_option_variant_idx + 1 + BLS_PUBKEY_BYTES,
                LANDED_VOTE_BYTES,
                0,
            )
        } else {
            Err(InstructionError::InvalidAccountData)
        }
    } else {
        Ok(0)
    }
}

/// Deserializes the node pubkey (the 32 bytes after the version tag) from raw vote
/// account data.
pub fn deserialize_node_pubkey(data: &[u8]) -> (res: Result<[u8; 32], InstructionError>)
    ensures
        spec_node_pubkey_present(data@) <==> res is Ok,
        res matches Ok(pk) ==> pk@ == data@.subrange(
            ENUM_LEN_BYTES as int,
            (ENUM_LEN_BYTES + PUBKEY_BYTES) as int,
        ),
        !spec_node_pubkey_present(data@) ==> res == Err::<[u8; 32], InstructionError>(
            InstructionError::InvalidAccountData,
        ),
{
    let start = ENUM_LEN_BYTES;
    let end = start + PUBKEY_BYTES;
    if data.len() < end {
        return Err(InstructionError::InvalidAccountData);
    }
    let mut pubkey = [0u8; 32];
    let mut i: usize = 0;
    while i < PUBKEY_BYTES
        invariant
            i <= PUBKEY_BYTES,
            end <= data@.len(),
            start == ENUM_LEN_BYTES,
            end == start + PUBKEY_BYTES,
            pubkey@.len() == PUBKEY_BYTES,
            forall|k: int| 0 <= k < i ==> pubkey@[k] == data@[start + k],
        decreases PUBKEY_BYTES - i,
    {
        pubkey[i] = data[start + i];
        i += 1;
    }
    assert(pubkey@ =~= data@.subrange(start as int, end as int));
    Ok(pubkey)
}

} // verus!
