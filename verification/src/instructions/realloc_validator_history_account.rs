use vstd::prelude::*;

use crate::state::{
    config::Config,
    validator_history::{
        initialize_history_data, spec_initialized_history, spec_is_initialized, ValidatorHistory,
        DISCRIMINATOR_BYTES, INDEX_OFFSET, VOTE_ACCOUNT_OFFSET,
    },
    MAX_ALLOC_BYTES,
};

verus! {

broadcast use vstd::slice::group_slice_axioms;

/// Size a validator history account of `data_len` bytes grows to in one instruction.
pub open spec fn spec_get_realloc_size(data_len: int) -> int {
    if data_len < ValidatorHistory::SIZE {
        if data_len + MAX_ALLOC_BYTES < ValidatorHistory::SIZE {
            data_len + MAX_ALLOC_BYTES
        } else {
            ValidatorHistory::SIZE as int
        }
    } else {
        data_len
    }
}

/// An account below full size grows by at most `MAX_ALLOC_BYTES`, up to the full size; a
/// full-size account keeps its size.
pub fn get_realloc_size(data_len: usize) -> (r: usize)
    ensures
        r == spec_get_realloc_size(data_len as int),
{
    if data_len < ValidatorHistory::SIZE {
        let grown = data_len + MAX_ALLOC_BYTES;
        if grown < ValidatorHistory::SIZE {
            grown
        } else {
            ValidatorHistory::SIZE
        }
    } else {
        data_len
    }
}

/// Whether the account data holds an initialized validator history: the vote account
/// field (bytes 12..44, after the discriminator and the version) is not all zeroes.
pub fn is_initialized(data: &[u8]) -> (r: bool)
    ensures
        r == spec_is_initialized(data@),
{
    if data.len() < INDEX_OFFSET {
        return false;
    }
    let mut i: usize = VOTE_ACCOUNT_OFFSET;
    while i < INDEX_OFFSET
        invariant
            VOTE_ACCOUNT_OFFSET <= i <= INDEX_OFFSET,
            INDEX_OFFSET <= data@.len(),
            forall|j: int| VOTE_ACCOUNT_OFFSET <= j < i ==> data@[j] == 0,
        decreases INDEX_OFFSET - i,
    {
        if data[i] != 0 {
            return true;
        }
        i += 1;
    }
    false
}

/// What the instruction reads and writes besides the history account's data: the program
/// configuration and the vote account's address.
pub struct ReallocValidatorHistoryAccount {
    pub config: Config,
    pub vote_account: [u8; 32],
}

/// Bump seeds of the instruction's program addresses.
pub struct ReallocValidatorHistoryAccountBumps {
    pub validator_history_account: u8,
    pub config: u8,
}

/// Whether the account data is fully allocated and not yet initialized, so that the
/// instruction initializes it.
pub open spec fn spec_needs_initialization(data: Seq<u8>) -> bool {
    data.len() >= ValidatorHistory::SIZE && !spec_is_initialized(data)
}

/// Size of an account of `data_len` bytes after `steps` instructions.
pub open spec fn spec_size_after_reallocs(data_len: int, steps: nat) -> int
    decreases steps,
{
    if steps == 0 {
        data_len
    } else {
        spec_get_realloc_size(spec_size_after_reallocs(data_len, (steps - 1) as nat))
    }
}

/// Each instruction grows an account below full size by `MAX_ALLOC_BYTES` bytes, or up to
/// the full size when less is missing, and never past it: after `steps` instructions an
/// account that started at `data_len <= SIZE` bytes holds
/// `min(SIZE, data_len + steps * MAX_ALLOC_BYTES)` bytes.
pub proof fn lemma_reallocs_reach_full_size(data_len: int, steps: nat)
    requires
        0 <= data_len <= ValidatorHistory::SIZE,
    ensures
        spec_size_after_reallocs(data_len, steps) == if data_len + steps * MAX_ALLOC_BYTES
            < ValidatorHistory::SIZE {
            data_len + steps * MAX_ALLOC_BYTES
        } else {
            ValidatorHistory::SIZE as int
        },
    decreases steps,
{
    if steps > 0 {
        lemma_reallocs_reach_full_size(data_len, (steps - 1) as nat);
        assert((steps - 1) * MAX_ALLOC_BYTES + MAX_ALLOC_BYTES == steps * MAX_ALLOC_BYTES)
            by (nonlinear_arith);
    }
}

/// Once written, a history account that names a vote account (not all zero bytes) counts
/// as initialized, so a later instruction leaves its data and the counter alone.
pub proof fn lemma_initialization_happens_once(
    old: Seq<u8>,
    vote_account: Seq<u8>,
    index: u32,
    bump: u8,
)
    requires
        old.len() >= ValidatorHistory::SIZE,
        vote_account.len() == 32,
        exists|i: int| 0 <= i < 32 && vote_account[i] != 0,
    ensures
        spec_is_initialized(spec_initialized_history(old, vote_account, index, bump)),
        !spec_needs_initialization(spec_initialized_history(old, vote_account, index, bump)),
{
    let i = choose|i: int| 0 <= i < 32 && vote_account[i] != 0;
    let new = spec_initialized_history(old, vote_account, index, bump);
    assert(new[VOTE_ACCOUNT_OFFSET + i] == vote_account[i]);
}

/// An account as the creating instruction leaves it, its discriminator followed by zero
/// bytes, is not initialized yet; once grown to full size with zeroes, the realloc step
/// initializes it.
pub proof fn lemma_created_account_awaits_initialization(data_len: nat)
    requires
        data_len >= DISCRIMINATOR_BYTES,
    ensures
        !spec_is_initialized(spec_created_account(data_len)),
        data_len >= ValidatorHistory::SIZE ==> spec_needs_initialization(
            spec_created_account(data_len),
        ),
{
    broadcast use vstd::array::group_array_axioms;

    let data = spec_created_account(data_len);
    assert forall|i: int| VOTE_ACCOUNT_OFFSET <= i < INDEX_OFFSET && i < data.len() implies data[i]
        == 0 by {}
}

/// Account data and configuration counter after the library's step of the instruction.
pub open spec fn spec_init_step(data: Seq<u8>, vote_account: Seq<u8>, counter: u32, bump: u8) -> (
    Seq<u8>,
    u32,
) {
    if spec_needs_initialization(data) {
        (spec_initialized_history(data, vote_account, counter, bump), (counter + 1) as u32)
    } else {
        (data, counter)
    }
}

/// `data` grown with zero bytes to `new_len` bytes, as the runtime grows account data.
pub open spec fn spec_grow_with_zeroes(data: Seq<u8>, new_len: int) -> Seq<u8> {
    if new_len > data.len() {
        data + Seq::new((new_len - data.len()) as nat, |i: int| 0u8)
    } else {
        data
    }
}

/// One whole realloc instruction: the account grows (with zero bytes) to
/// `get_realloc_size` of its length, then the library's step runs.
pub open spec fn spec_realloc_call(data: Seq<u8>, vote_account: Seq<u8>, counter: u32, bump: u8) -> (
    Seq<u8>,
    u32,
) {
    spec_init_step(
        spec_grow_with_zeroes(data, spec_get_realloc_size(data.len() as int)),
        vote_account,
        counter,
        bump,
    )
}

/// Account data and counter after `calls` realloc instructions.
pub open spec fn spec_realloc_calls(
    data: Seq<u8>,
    vote_account: Seq<u8>,
    counter: u32,
    bump: u8,
    calls: nat,
) -> (Seq<u8>, u32)
    decreases calls,
{
    if calls == 0 {
        (data, counter)
    } else {
        let prev = spec_realloc_calls(data, vote_account, counter, bump, (calls - 1) as nat);
        spec_realloc_call(prev.0, vote_account, prev.1, bump)
    }
}

/// Account data of `data_len` bytes as the creating instruction leaves it: the
/// discriminator followed by zero bytes.
pub open spec fn spec_created_account(data_len: nat) -> Seq<u8> {
    ValidatorHistory::DISCRIMINATOR@ + Seq::new(
        (data_len - DISCRIMINATOR_BYTES) as nat,
        |i: int| 0u8,
    )
}

/// The realloc instruction run again and again on a freshly created account (of
/// `MAX_ALLOC_BYTES` bytes) grows it by `MAX_ALLOC_BYTES` per call, leaving the new bytes
/// zero and the counter alone, until the sixth call brings it to full size and writes the
/// header with the counter `c0` as index, counting it once; every later call changes
/// nothing. The vote account must not be all zero bytes, or each call would write the
/// header anew.
pub proof fn lemma_realloc_calls_from_creation(
    vote_account: Seq<u8>,
    c0: u32,
    bump: u8,
    calls: nat,
)
    requires
        vote_account.len() == 32,
        exists|i: int| 0 <= i < 32 && vote_account[i] != 0,
        c0 < u32::MAX,
    ensures
        calls <= 5 ==> spec_realloc_calls(
            spec_created_account(MAX_ALLOC_BYTES as nat),
            vote_account,
            c0,
            bump,
            calls,
        ) == (spec_created_account((MAX_ALLOC_BYTES * (calls + 1)) as nat), c0),
        calls >= 6 ==> spec_realloc_calls(
            spec_created_account(MAX_ALLOC_BYTES as nat),
            vote_account,
            c0,
            bump,
            calls,
        ) == (
            spec_initialized_history(
                spec_created_account(ValidatorHistory::SIZE as nat),
                vote_account,
                c0,
                bump,
            ),
            (c0 + 1) as u32,
        ),
    decreases calls,
{
    let start = spec_created_account(MAX_ALLOC_BYTES as nat);
    if calls > 0 {
        lemma_realloc_calls_from_creation(vote_account, c0, bump, (calls - 1) as nat);
        let prev = spec_realloc_calls(start, vote_account, c0, bump, (calls - 1) as nat);
        if calls <= 6 {
            let len = MAX_ALLOC_BYTES * calls;
            assert(prev == (spec_created_account(len as nat), c0));
            assert(prev.0.len() == len);
            let new_len = spec_get_realloc_size(len);
            let grown = spec_grow_with_zeroes(prev.0, new_len);
            if calls <= 5 {
                assert(new_len == MAX_ALLOC_BYTES * (calls + 1));
                assert(grown =~= spec_created_account((MAX_ALLOC_BYTES * (calls + 1)) as nat));
                assert(!spec_needs_initialization(grown));
            } else {
                assert(new_len == ValidatorHistory::SIZE);
                assert(grown =~= spec_created_account(ValidatorHistory::SIZE as nat));
                lemma_created_account_awaits_initialization(ValidatorHistory::SIZE as nat);
            }
        } else {
            let full = spec_initialized_history(
                spec_created_account(ValidatorHistory::SIZE as nat),
                vote_account,
                c0,
                bump,
            );
            assert(prev == (full, (c0 + 1) as u32));
            lemma_initialization_happens_once(
                spec_created_account(ValidatorHistory::SIZE as nat),
                vote_account,
                c0,
                bump,
            );
            assert(full.len() == ValidatorHistory::SIZE);
            assert(spec_grow_with_zeroes(full, spec_get_realloc_size(full.len() as int)) == full);
        }
    }
}

/// Whether an account counts as initialized depends only on its vote account field: with
/// at least 44 bytes and a nonzero byte among bytes 12..44 it is initialized, whatever its
/// other bytes (its history among them) hold; otherwise it is not.
pub proof fn lemma_initialized_iff_vote_account_set(data: Seq<u8>)
    ensures
        spec_is_initialized(data) <==> (data.len() >= 44 && exists|i: int|
            12 <= i < 44 && #[trigger] data[i] != 0),
{
}

/// The realloc step leaves a full-size account whose vote account field is set as it is,
/// and the counter too, whatever the rest of the account holds.
pub proof fn lemma_realloc_leaves_initialized_account(
    data: Seq<u8>,
    vote_account: Seq<u8>,
    counter: u32,
    bump: u8,
)
    requires
        data.len() >= ValidatorHistory::SIZE,
        exists|i: int| 12 <= i < 44 && #[trigger] data[i] != 0,
    ensures
        spec_init_step(data, vote_account, counter, bump) == (data, counter),
{
}

impl ReallocValidatorHistoryAccount {
    /// The step of the instruction after the account was grown to
    /// `get_realloc_size` of its former length: once the account is fully allocated and
    /// not yet initialized, writes its header and empty ring buffer, with the current
    /// configuration counter as its index, and counts it in the configuration.
    pub fn realloc_validator_history_account(
        &mut self,
        data: &mut [u8],
        bumps: &ReallocValidatorHistoryAccountBumps,
    )
        requires
            spec_needs_initialization(old(data)@) ==> old(self).config.counter < u32::MAX,
        ensures
            spec_needs_initialization(old(data)@) ==> {
                &&& final(data)@ == spec_initialized_history(
                    old(data)@,
                    old(self).vote_account@,
                    old(self).config.counter,
                    bumps.validator_history_account,
                )
                &&& final(self).config.counter == old(self).config.counter + 1
                &&& final(self).vote_account == old(self).vote_account
                &&& final(self).config.tip_distribution_program
                    == old(self).config.tip_distribution_program
                &&& final(self).config.admin == old(self).config.admin
                &&& final(self).config.oracle_authority == old(self).config.oracle_authority
                &&& final(self).config.bump == old(self).config.bump
                &&& final(self).config.padding0 == old(self).config.padding0
                &&& final(self).config.priority_fee_distribution_program
                    == old(self).config.priority_fee_distribution_program
                &&& final(self).config.priority_fee_oracle_authority
                    == old(self).config.priority_fee_oracle_authority
                &&& final(self).config.reserve == old(self).config.reserve
            },
            !spec_needs_initialization(old(data)@) ==> final(data)@ == old(data)@ && *final(self)
                == *old(self),
            (final(data)@, final(self).config.counter) == spec_init_step(
                old(data)@,
                old(self).vote_account@,
                old(self).config.counter,
                bumps.validator_history_account,
            ),
    {
        if data.len() >= ValidatorHistory::SIZE {
            if !is_initialized(data) {
                let counter_val = self.config.counter;
                initialize_history_data(
                    data,
                    &self.vote_account,
                    counter_val,
                    bumps.validator_history_account,
                );
                self.config.counter = counter_val + 1;
            }
        }
    }
}

} // verus!
