use vstd::prelude::*;

verus! {

/// Custom error codes of the validator history program.
#[derive(Debug, Clone, Copy, PartialEq, Eq, Structural)]
pub enum ValidatorHistoryError {
    /// The vote account has fewer epoch credit entries than the program asks for.
    NotEnoughVotingHistory,
}

/// Why an instruction of the program fails.
///
/// `InvalidAccountData` stands for the runtime's error of the same name; `Custom` for one of
/// the program's own error codes.
#[derive(Debug, Clone, Copy, PartialEq, Eq, Structural)]
pub enum InstructionError {
    InvalidAccountData,
    Custom(ValidatorHistoryError),
}

} // verus!
