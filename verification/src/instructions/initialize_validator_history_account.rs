use vstd::prelude::*;

use crate::errors::{InstructionError, ValidatorHistoryError};
use crate::state::{
    merkle_root_upload_authority::bytes_eq,
    vote_state::{deserialize_epoch_credits_count, spec_epoch_credits_count},
    MAX_ALLOC_BYTES, MIN_VOTE_EPOCHS, VOTE_PROGRAM_ID,
};

verus! {

/// What the instruction reads of the vote account: its owner and its data.
pub struct InitializeValidatorHistoryAccount<'a> {
    pub vote_account_owner: [u8; 32],
    pub vote_account_data: &'a [u8],
}

/// The outcome of the instruction's checks on the vote account: the data size of the
/// history account to create, or why none is created.
pub open spec fn spec_initialize_validator_history_account(
    owner: Seq<u8>,
    data: Seq<u8>,
) -> Result<u64, InstructionError> {
    if owner != VOTE_PROGRAM_ID@ {
        Err(InstructionError::InvalidAccountData)
    } else {
        match spec_epoch_credits_count(data) {
            Ok(n) => if n < MIN_VOTE_EPOCHS {
                Err(InstructionError::Custom(ValidatorHistoryError::NotEnoughVotingHistory))
            } else {
                Ok(MAX_ALLOC_BYTES as u64)
            },
            Err(e) => Err(e),
        }
    }
}

impl<'a> InitializeValidatorHistoryAccount<'a> {
    /// The decisions of the instruction: the vote account must be owned by the vote
    /// program and have at least `MIN_VOTE_EPOCHS` epoch credit entries. On success the
    /// history account is created with `MAX_ALLOC_BYTES` bytes of data, the size returned,
    /// since the full account is too large to allocate in one instruction.
    pub fn initialize_validator_history_account(&self) -> (res: Result<u64, InstructionError>)
        ensures
            res == spec_initialize_validator_history_account(
                self.vote_account_owner@,
                self.vote_account_data@,
            ),
    {
        if !bytes_eq(&self.vote_account_owner, &VOTE_PROGRAM_ID) {
            return Err(InstructionError::InvalidAccountData);
        }
        let epoch_credits_count = deserialize_epoch_credits_count(self.vote_account_data)?;
        if epoch_credits_count < MIN_VOTE_EPOCHS {
            return Err(InstructionError::Custom(ValidatorHistoryError::NotEnoughVotingHistory));
        }
        Ok(MAX_ALLOC_BYTES as u64)
    }
}

/// Acceptance depends only on the owner and on the number of epoch credit entries: a
/// vote-program-owned account with at least 5 entries, however many, is accepted with
/// 10240 bytes to allocate; one with fewer is refused for not enough voting history; an
/// account of another owner is refused as invalid data.
pub proof fn lemma_enough_voting_history_is_accepted(owner: Seq<u8>, data: Seq<u8>, n: usize)
    requires
        spec_epoch_credits_count(data) == Ok::<usize, InstructionError>(n),
    ensures
        owner == VOTE_PROGRAM_ID@ && n >= 5 ==> spec_initialize_validator_history_account(
            owner,
            data,
        ) == Ok::<u64, InstructionError>(10240),
        owner == VOTE_PROGRAM_ID@ && n < 5 ==> spec_initialize_validator_history_account(
            owner,
            data,
        ) == Err::<u64, InstructionError>(
            InstructionError::Custom(ValidatorHistoryError::NotEnoughVotingHistory),
        ),
        owner != VOTE_PROGRAM_ID@ ==> spec_initialize_validator_history_account(owner, data)
            == Err::<u64, InstructionError>(InstructionError::InvalidAccountData),
{
}

} // verus!
