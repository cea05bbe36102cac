use vstd::prelude::*;

use crate::state::vote_state::{le_u32_at, le_u64_at};
use crate::state::{
    circ_buf::CircBuf, validator_history_entry::VALIDATOR_HISTORY_ENTRY_BYTES,
    ValidatorHistoryVersion, MAX_ITEMS,
};

verus! {

broadcast use vstd::slice::group_slice_axioms;

/// Per-validator history account: header fields, then a ring buffer of epoch entries.
pub struct ValidatorHistory {
    pub struct_version: u32,
    pub vote_account: [u8; 32],
    /// Index of validator of all ValidatorHistory accounts
    pub index: u32,
    pub bump: u8,
    pub _padding0: [u8; 7],
    /// Latest gossip timestamps seen for the IP and the version, so that older messages are
    /// refused
    pub last_ip_timestamp: u64,
    pub last_version_timestamp: u64,
    /// Total epochs with non-zero vote credits
    pub validator_age: u32,
    /// Last epoch when age was updated
    pub validator_age_last_updated_epoch: u16,
    pub _padding1: [u8; 226],
    pub history: CircBuf,
}

/// Account data offsets of the fields of a validator history account. Account data starts
/// with the 8-byte discriminator.
pub const DISCRIMINATOR_BYTES: usize = 8;
pub const STRUCT_VERSION_OFFSET: usize = 8;
pub const VOTE_ACCOUNT_OFFSET: usize = 12;
pub const INDEX_OFFSET: usize = 44;
pub const BUMP_OFFSET: usize = 48;
/// Bytes of the fields before the history: struct_version(4) + vote_account(32) + index(4)
/// + bump(1) + _padding0(7) + last_ip_timestamp(8) + last_version_timestamp(8)
/// + validator_age(4) + validator_age_last_updated_epoch(2) + _padding1(226).
pub const HEADER_BYTES: usize = 296;
pub const HISTORY_OFFSET: usize = DISCRIMINATOR_BYTES + HEADER_BYTES;
/// The ring buffer's `idx` (8 bytes), `is_empty` (1) and padding (7) come before its entries.
pub const HISTORY_IS_EMPTY_OFFSET: usize = HISTORY_OFFSET + 8;
pub const ENTRIES_OFFSET: usize = HISTORY_OFFSET + 16;

impl ValidatorHistory {
    /// Bytes of a fully allocated account: discriminator, header and ring buffer.
    pub const SIZE: usize = ENTRIES_OFFSET + MAX_ITEMS * VALIDATOR_HISTORY_ENTRY_BYTES;
    pub const MAX_ITEMS: usize = MAX_ITEMS;
    /// The ASCII bytes of `validator-history`, the seed of the account's program address.
    pub const SEED: [u8; 17] = [118, 97, 108, 105, 100, 97, 116, 111, 114, 45, 104, 105, 115, 116, 111, 114, 121];
    pub const DISCRIMINATOR: [u8; 8] = [205, 25, 8, 221, 253, 131, 2, 146];
}

/// `256^k`, the weight of byte `k` of a little-endian integer.
pub open spec fn byte_weight(k: int) -> int {
    if k <= 0 {
        1
    } else if k == 1 {
        256
    } else if k == 2 {
        65536
    } else if k == 3 {
        16777216
    } else if k == 4 {
        4294967296
    } else if k == 5 {
        1099511627776
    } else if k == 6 {
        281474976710656
    } else {
        72057594037927936
    }
}

/// Byte `k` of the little-endian encoding of `v`.
pub open spec fn le_byte(v: int, k: int) -> u8 {
    ((v / byte_weight(k)) % 256) as u8
}

/// Whether a validator history account has been initialized: the data reaches past the
/// vote account field and that field is not all zeroes.
pub open spec fn spec_is_initialized(data: Seq<u8>) -> bool {
    &&& data.len() >= INDEX_OFFSET
    &&& exists|i: int| VOTE_ACCOUNT_OFFSET <= i < INDEX_OFFSET && #[trigger] data[i] != 0
}

/// Account data after the first write of a fully allocated validator history account:
/// discriminator, version 0, the vote account, `index`, `bump`, ring buffer index
/// `MAX_ITEMS - 1`, the empty flag set, every entry byte 0xFF; all other bytes as before.
pub open spec fn spec_initialized_history(
    old: Seq<u8>,
    vote_account: Seq<u8>,
    index: u32,
    bump: u8,
) -> Seq<u8> {
    Seq::new(
        old.len(),
        |k: int|
            if k < DISCRIMINATOR_BYTES {
                ValidatorHistory::DISCRIMINATOR@[k]
            } else if k < VOTE_ACCOUNT_OFFSET {
                0u8
            } else if k < INDEX_OFFSET {
                vote_account[k - VOTE_ACCOUNT_OFFSET]
            } else if k < BUMP_OFFSET {
                le_byte(index as int, k - INDEX_OFFSET)
            } else if k == BUMP_OFFSET {
                bump
            } else if HISTORY_OFFSET <= k < HISTORY_IS_EMPTY_OFFSET {
                le_byte(MAX_ITEMS - 1, k - HISTORY_OFFSET)
            } else if k == HISTORY_IS_EMPTY_OFFSET {
                1u8
            } else if ENTRIES_OFFSET <= k < ValidatorHistory::SIZE {
                0xFFu8
            } else {
                old[k]
            },
    )
}

/// The four little-endian bytes of a `u32` give it back.
proof fn lemma_le_u32_bytes(v: u32)
    ensures
        le_byte(v as int, 0) + 256 * le_byte(v as int, 1) + 65536 * le_byte(v as int, 2)
            + 16777216 * le_byte(v as int, 3) == v,
{
    assert((v % 256) + 256 * ((v / 256) % 256) + 65536 * ((v / 65536) % 256) + 16777216 * ((v
        / 16777216) % 256) == v) by (bit_vector);
}

/// Reading the fields of a freshly initialized validator history account gives back what
/// was written: discriminator, version 0, the vote account, the index, the bump, ring
/// buffer index `MAX_ITEMS - 1`, the empty flag, entries of 0xFF bytes; the bytes in
/// between keep their former values. The account counts as initialized exactly when the
/// vote account has a nonzero byte.
pub proof fn lemma_initialized_history_reads_back(
    old: Seq<u8>,
    vote_account: Seq<u8>,
    index: u32,
    bump: u8,
)
    requires
        old.len() >= ValidatorHistory::SIZE,
        vote_account.len() == 32,
    ensures
        ({
            let new = spec_initialized_history(old, vote_account, index, bump);
            &&& new.len() == old.len()
            &&& new.subrange(0, DISCRIMINATOR_BYTES as int) == ValidatorHistory::DISCRIMINATOR@
            &&& le_u32_at(new, STRUCT_VERSION_OFFSET as int) == 0
            &&& new.subrange(VOTE_ACCOUNT_OFFSET as int, INDEX_OFFSET as int) == vote_account
            &&& le_u32_at(new, INDEX_OFFSET as int) == index
            &&& new[BUMP_OFFSET as int] == bump
            &&& le_u64_at(new, HISTORY_OFFSET as int) == MAX_ITEMS - 1
            &&& new[HISTORY_IS_EMPTY_OFFSET as int] == 1
            &&& forall|k: int|
                ENTRIES_OFFSET <= k < ValidatorHistory::SIZE ==> #[trigger] new[k] == 0xFFu8
            &&& forall|k: int|
                (BUMP_OFFSET < k < HISTORY_OFFSET || HISTORY_IS_EMPTY_OFFSET < k < ENTRIES_OFFSET
                    || ValidatorHistory::SIZE <= k < old.len()) ==> #[trigger] new[k] == old[k]
            &&& spec_is_initialized(new) <==> exists|i: int|
                0 <= i < 32 && #[trigger] vote_account[i] != 0
        }),
{
    broadcast use vstd::array::group_array_axioms;

    let new = spec_initialized_history(old, vote_account, index, bump);
    assert(new.subrange(0, DISCRIMINATOR_BYTES as int) =~= ValidatorHistory::DISCRIMINATOR@);
    assert(new.subrange(VOTE_ACCOUNT_OFFSET as int, INDEX_OFFSET as int) =~= vote_account);
    lemma_le_u32_bytes(index);
    assert(le_u32_at(new, INDEX_OFFSET as int) == index);
    assert(le_u32_at(new, STRUCT_VERSION_OFFSET as int) == 0);
    assert(le_u32_at(new, HISTORY_OFFSET as int) == 511);
    assert(le_u32_at(new, HISTORY_OFFSET + 4) == 0);
    if spec_is_initialized(new) {
        let i = choose|i: int| VOTE_ACCOUNT_OFFSET <= i < INDEX_OFFSET && #[trigger] new[i] != 0;
        assert(vote_account[i - VOTE_ACCOUNT_OFFSET] != 0);
    }
    if exists|i: int| 0 <= i < 32 && #[trigger] vote_account[i] != 0 {
        let i = choose|i: int| 0 <= i < 32 && #[trigger] vote_account[i] != 0;
        assert(new[VOTE_ACCOUNT_OFFSET + i] != 0);
    }
}

/// Writes the little-endian `u32` `v` at `data[offset..offset + 4]`.
fn write_u32_le(data: &mut [u8], offset: usize, v: u32)
    requires
        offset + 4 <= old(data)@.len(),
    ensures
        final(data)@.len() == old(data)@.len(),
        forall|k: int|
            0 <= k < old(data)@.len() ==> #[trigger] final(data)@[k] == if offset <= k < offset
                + 4 {
                le_byte(v as int, k - offset)
            } else {
                old(data)@[k]
            },
{
    data[offset] = (v % 256) as u8;
    data[offset + 1] = ((v / 256) % 256) as u8;
    data[offset + 2] = ((v / 65536) % 256) as u8;
    data[offset + 3] = ((v / 16777216) % 256) as u8;
}

/// Writes the little-endian `u64` `v` at `data[offset..offset + 8]`.
fn write_u64_le(data: &mut [u8], offset: usize, v: u64)
    requires
        offset + 8 <= old(data)@.len(),
    ensures
        final(data)@.len() == old(data)@.len(),
        forall|k: int|
            0 <= k < old(data)@.len() ==> #[trigger] final(data)@[k] == if offset <= k < offset
                + 8 {
                le_byte(v as int, k - offset)
            } else {
                old(data)@[k]
            },
{
    data[offset] = (v % 256) as u8;
    data[offset + 1] = ((v / 256) % 256) as u8;
    data[offset + 2] = ((v / 65536) % 256) as u8;
    data[offset + 3] = ((v / 16777216) % 256) as u8;
    data[offset + 4] = ((v / 4294967296) % 256) as u8;
    data[offset + 5] = ((v / 1099511627776) % 256) as u8;
    data[offset + 6] = ((v / 281474976710656) % 256) as u8;
    data[offset + 7] = ((v / 72057594037927936) % 256) as u8;
}

/// Writes the validator history discriminator over the first 8 bytes of `data`.
pub fn write_discriminator(data: &mut [u8])
    requires
        old(data)@.len() >= DISCRIMINATOR_BYTES,
    ensures
        final(data)@ == ValidatorHistory::DISCRIMINATOR@ + old(data)@.skip(
            DISCRIMINATOR_BYTES as int,
        ),
{
    broadcast use vstd::array::group_array_axioms;

    let disc = ValidatorHistory::DISCRIMINATOR;
    let mut k: usize = 0;
    while k < DISCRIMINATOR_BYTES
        invariant
            k <= DISCRIMINATOR_BYTES,
            disc == ValidatorHistory::DISCRIMINATOR,
            data@.len() == old(data)@.len(),
            old(data)@.len() >= DISCRIMINATOR_BYTES,
            forall|j: int|
                0 <= j < data@.len() ==> #[trigger] data@[j] == if j < k {
                    disc@[j]
                } else {
                    old(data)@[j]
                },
        decreases DISCRIMINATOR_BYTES - k,
    {
        data[k] = disc[k];
        k += 1;
    }
    assert(data@ =~= ValidatorHistory::DISCRIMINATOR@ + old(data)@.skip(
        DISCRIMINATOR_BYTES as int,
    ));
}

/// First write of a fully allocated validator history account: header fields, then the
/// empty ring buffer with every entry in its default (all 0xFF) state.
pub fn initialize_history_data(data: &mut [u8], vote_account: &[u8; 32], index: u32, bump: u8)
    requires
        old(data)@.len() >= ValidatorHistory::SIZE,
    ensures
        final(data)@ == spec_initialized_history(old(data)@, vote_account@, index, bump),
{
    broadcast use vstd::array::group_array_axioms;

    let ghost old_data = data@;
    let ghost target = spec_initialized_history(old_data, vote_account@, index, bump);
    let len = data.len();

    write_discriminator(data);
    assert forall|j: int| 0 <= j < len implies #[trigger] data@[j] == if j
        < DISCRIMINATOR_BYTES {
        target[j]
    } else {
        old_data[j]
    } by {
        if j < DISCRIMINATOR_BYTES {
            assert(data@[j] == ValidatorHistory::DISCRIMINATOR@[j]);
        } else {
            assert(data@[j] == old_data.skip(DISCRIMINATOR_BYTES as int)[j - DISCRIMINATOR_BYTES]);
        }
    }

    // struct_version
    let version = ValidatorHistoryVersion::V0.number();
    write_u32_le(data, STRUCT_VERSION_OFFSET, version);
    assert forall|j: int| 0 <= j < len implies #[trigger] data@[j] == if j < VOTE_ACCOUNT_OFFSET {
        target[j]
    } else {
        old_data[j]
    } by {
        if STRUCT_VERSION_OFFSET <= j < VOTE_ACCOUNT_OFFSET {
            assert(le_byte(0, j - STRUCT_VERSION_OFFSET) == 0u8);
        }
    }

    // vote_account
    let mut k: usize = VOTE_ACCOUNT_OFFSET;
    while k < INDEX_OFFSET
        invariant
            VOTE_ACCOUNT_OFFSET <= k <= INDEX_OFFSET,
            len == data@.len(),
            len >= ValidatorHistory::SIZE,
            target == spec_initialized_history(old_data, vote_account@, index, bump),
            old_data.len() == len,
            forall|j: int|
                0 <= j < len ==> #[trigger] data@[j] == if j < k {
                    target[j]
                } else {
                    old_data[j]
                },
        decreases INDEX_OFFSET - k,
    {
        assert(target[k as int] == vote_account@[k - VOTE_ACCOUNT_OFFSET]);
        data[k] = vote_account[k - VOTE_ACCOUNT_OFFSET];
        k += 1;
    }

    // index
    write_u32_le(data, INDEX_OFFSET, index);
    // bump
    data[BUMP_OFFSET] = bump;
    assert forall|j: int| 0 <= j < len implies #[trigger] data@[j] == if j < HISTORY_OFFSET {
        target[j]
    } else {
        old_data[j]
    } by {}

    // ring buffer idx: the latest slot is the last one, so the first push writes slot 0
    let idx_val = (MAX_ITEMS - 1) as u64;
    write_u64_le(data, HISTORY_OFFSET, idx_val);
    // ring buffer is_empty
    data[HISTORY_IS_EMPTY_OFFSET] = 1;
    assert forall|j: int| 0 <= j < len implies #[trigger] data@[j] == if j < ENTRIES_OFFSET {
        target[j]
    } else {
        old_data[j]
    } by {}

    // entries: every byte 0xFF, the default of each field
    let mut i: usize = 0;
    while i < MAX_ITEMS
        invariant
            i <= MAX_ITEMS,
            len == data@.len(),
            len >= ValidatorHistory::SIZE,
            target == spec_initialized_history(old_data, vote_account@, index, bump),
            old_data.len() == len,
            forall|j: int|
                0 <= j < len ==> #[trigger] data@[j] == if j < ENTRIES_OFFSET + i
                    * VALIDATOR_HISTORY_ENTRY_BYTES {
                    target[j]
                } else {
                    old_data[j]
                },
        decreases MAX_ITEMS - i,
    {
        assert(i * VALIDATOR_HISTORY_ENTRY_BYTES + VALIDATOR_HISTORY_ENTRY_BYTES <= MAX_ITEMS
            * VALIDATOR_HISTORY_ENTRY_BYTES) by (nonlinear_arith)
            requires
                i < MAX_ITEMS,
        ;
        let entry_start = ENTRIES_OFFSET + i * VALIDATOR_HISTORY_ENTRY_BYTES;
        let entry_end = entry_start + VALIDATOR_HISTORY_ENTRY_BYTES;
        if entry_end <= data.len() {
            let mut k: usize = entry_start;
            while k < entry_end
                invariant
                    entry_start <= k <= entry_end,
                    entry_start == ENTRIES_OFFSET + i * VALIDATOR_HISTORY_ENTRY_BYTES,
                    entry_end == entry_start + VALIDATOR_HISTORY_ENTRY_BYTES,
                    entry_end <= len,
                    entry_end <= ValidatorHistory::SIZE,
                    len == data@.len(),
                    len >= ValidatorHistory::SIZE,
                    target == spec_initialized_history(old_data, vote_account@, index, bump),
                    old_data.len() == len,
                    forall|j: int|
                        0 <= j < len ==> #[trigger] data@[j] == if j < k {
                            target[j]
                        } else {
                            old_data[j]
                        },
                decreases entry_end - k,
            {
                assert(target[k as int] == 0xFFu8);
                data[k] = 0xFF;
                k += 1;
            }
        }
        i += 1;
    }
    assert(data@ =~= target);
}

} // verus!
