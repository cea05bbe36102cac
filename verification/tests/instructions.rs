use validator_history::errors::{InstructionError, ValidatorHistoryError};
use validator_history::instructions::initialize_config::{InitializeConfig, InitializeConfigBumps};
use validator_history::instructions::initialize_validator_history_account::InitializeValidatorHistoryAccount;
use validator_history::instructions::realloc_validator_history_account::{
    get_realloc_size, is_initialized, ReallocValidatorHistoryAccount,
    ReallocValidatorHistoryAccountBumps,
};
use validator_history::state::config::Config;
use validator_history::state::validator_history::{write_discriminator, ValidatorHistory};
use validator_history::state::{MAX_ALLOC_BYTES, VOTE_PROGRAM_ID};

#[test]
fn initialize_config_sets_authorities() {
    let mut ix = InitializeConfig { config: Config::default() };
    ix.config.tip_distribution_program = [5; 32];
    ix.config.counter = 9;
    let authority = [3u8; 32];
    assert_eq!(ix.initialize_config(authority, &InitializeConfigBumps { config: 254 }), Ok(()));
    assert_eq!(ix.config.admin, authority);
    assert_eq!(ix.config.oracle_authority, authority);
    assert_eq!(ix.config.bump, 254);
    assert_eq!(ix.config.counter, 0);
    assert_eq!(ix.config.tip_distribution_program, [5; 32]);
}

/// A `V1_14_11` vote state with `entries` epoch credit entries.
fn vote_state_with_credits(entries: u64) -> Vec<u8> {
    let mut data = vec![1u8, 0, 0, 0];
    data.extend_from_slice(&[0u8; 65]); // node pubkey, withdrawer, commission
    data.extend_from_slice(&0u64.to_le_bytes()); // votes
    data.push(0); // no root slot
    data.extend_from_slice(&0u64.to_le_bytes()); // authorized voters
    data.extend_from_slice(&[0u8; 1545]); // prior voters
    data.extend_from_slice(&entries.to_le_bytes());
    for i in 0..entries {
        data.extend_from_slice(&i.to_le_bytes());
        data.extend_from_slice(&i.to_le_bytes());
        data.extend_from_slice(&i.to_le_bytes());
    }
    data.extend_from_slice(&[0u8; 16]); // last timestamp
    data
}

#[test]
fn initialize_validator_history_checks_vote_account() {
    let enough = vote_state_with_credits(5);
    let ix = InitializeValidatorHistoryAccount {
        vote_account_owner: VOTE_PROGRAM_ID,
        vote_account_data: &enough,
    };
    assert_eq!(ix.initialize_validator_history_account(), Ok(MAX_ALLOC_BYTES as u64));

    let few = vote_state_with_credits(4);
    let ix = InitializeValidatorHistoryAccount {
        vote_account_owner: VOTE_PROGRAM_ID,
        vote_account_data: &few,
    };
    assert_eq!(
        ix.initialize_validator_history_account(),
        Err(InstructionError::Custom(ValidatorHistoryError::NotEnoughVotingHistory))
    );

    let ix = InitializeValidatorHistoryAccount {
        vote_account_owner: [0u8; 32],
        vote_account_data: &enough,
    };
    assert_eq!(ix.initialize_validator_history_account(), Err(InstructionError::InvalidAccountData));

    let truncated = &enough[..enough.len() - 40];
    let ix = InitializeValidatorHistoryAccount {
        vote_account_owner: VOTE_PROGRAM_ID,
        vote_account_data: truncated,
    };
    assert_eq!(ix.initialize_validator_history_account(), Err(InstructionError::InvalidAccountData));
}

#[test]
fn discriminator_write() {
    let mut data = vec![7u8; 12];
    write_discriminator(&mut data);
    assert_eq!(&data[..8], &ValidatorHistory::DISCRIMINATOR);
    assert_eq!(&data[8..], &[7u8; 4]);
}

#[test]
fn realloc_size_grows_in_steps() {
    assert_eq!(get_realloc_size(MAX_ALLOC_BYTES), 2 * MAX_ALLOC_BYTES);
    assert_eq!(get_realloc_size(0), MAX_ALLOC_BYTES);
    assert_eq!(get_realloc_size(ValidatorHistory::SIZE - 1), ValidatorHistory::SIZE);
    assert_eq!(get_realloc_size(ValidatorHistory::SIZE), ValidatorHistory::SIZE);
    assert_eq!(get_realloc_size(ValidatorHistory::SIZE + 3), ValidatorHistory::SIZE + 3);
    let mut size = MAX_ALLOC_BYTES;
    let mut steps = 0;
    while size < ValidatorHistory::SIZE {
        size = get_realloc_size(size);
        steps += 1;
    }
    assert_eq!(size, ValidatorHistory::SIZE);
    assert_eq!(steps, 6);
}

#[test]
fn is_initialized_reads_vote_account_bytes() {
    assert!(!is_initialized(&[1u8; 43]));
    let mut data = vec![0u8; 44];
    assert!(!is_initialized(&data));
    data[43] = 1;
    assert!(is_initialized(&data));
    data[43] = 0;
    data[11] = 1;
    data[44 - 1] = 0;
    assert!(!is_initialized(&data));
}

#[test]
fn realloc_initializes_full_account_once() {
    let mut ix = ReallocValidatorHistoryAccount { config: Config::default(), vote_account: [9u8; 32] };
    ix.config.counter = 41;
    let bumps = ReallocValidatorHistoryAccountBumps { validator_history_account: 253, config: 255 };

    // Not yet fully allocated: nothing happens.
    let mut partial = vec![0u8; ValidatorHistory::SIZE - 1];
    ix.realloc_validator_history_account(&mut partial, &bumps);
    assert!(partial.iter().all(|&b| b == 0));
    assert_eq!(ix.config.counter, 41);

    let mut data = vec![0u8; ValidatorHistory::SIZE];
    ix.realloc_validator_history_account(&mut data, &bumps);
    assert_eq!(&data[..8], &ValidatorHistory::DISCRIMINATOR);
    assert_eq!(&data[8..12], &[0, 0, 0, 0]);
    assert_eq!(&data[12..44], &[9u8; 32]);
    assert_eq!(u32::from_le_bytes([data[44], data[45], data[46], data[47]]), 41);
    assert_eq!(data[48], 253);
    assert!(data[49..304].iter().all(|&b| b == 0));
    let mut idx = [0u8; 8];
    idx.copy_from_slice(&data[304..312]);
    assert_eq!(u64::from_le_bytes(idx), 511);
    assert_eq!(data[312], 1);
    assert!(data[313..320].iter().all(|&b| b == 0));
    assert!(data[320..].iter().all(|&b| b == 0xFF));
    assert_eq!(ix.config.counter, 42);
    assert!(is_initialized(&data));

    // A second run leaves everything alone.
    let before = data.clone();
    ix.realloc_validator_history_account(&mut data, &bumps);
    assert_eq!(data, before);
    assert_eq!(ix.config.counter, 42);
}

#[test]
fn created_account_awaits_initialization() {
    // The creating instruction leaves the discriminator followed by zeroes.
    let mut data = vec![0u8; MAX_ALLOC_BYTES];
    write_discriminator(&mut data);
    assert!(!is_initialized(&data));
    // Grown (with zeroes) to full size, the realloc step initializes it.
    data.resize(ValidatorHistory::SIZE, 0);
    let mut ix = ReallocValidatorHistoryAccount { config: Config::default(), vote_account: [1u8; 32] };
    let bumps = ReallocValidatorHistoryAccountBumps { validator_history_account: 7, config: 8 };
    ix.realloc_validator_history_account(&mut data, &bumps);
    assert!(is_initialized(&data));
    assert_eq!(ix.config.counter, 1);
}

#[test]
fn realloc_calls_from_creation() {
    // Creation leaves the discriminator followed by zeroes; each call grows the account
    // with zero bytes to get_realloc_size of its length, then runs the library's step.
    let mut data = vec![0u8; MAX_ALLOC_BYTES];
    write_discriminator(&mut data);
    let mut ix = ReallocValidatorHistoryAccount { config: Config::default(), vote_account: [4u8; 32] };
    ix.config.counter = 17;
    let bumps = ReallocValidatorHistoryAccountBumps { validator_history_account: 2, config: 3 };
    for call in 1..=8usize {
        let new_size = get_realloc_size(data.len());
        data.resize(new_size, 0);
        ix.realloc_validator_history_account(&mut data, &bumps);
        if call <= 5 {
            assert_eq!(data.len(), MAX_ALLOC_BYTES * (call + 1));
            assert!(data[8..].iter().all(|&b| b == 0));
            assert_eq!(ix.config.counter, 17);
        } else {
            assert_eq!(data.len(), ValidatorHistory::SIZE);
            assert_eq!(&data[44..48], &17u32.to_le_bytes());
            assert_eq!(ix.config.counter, 18);
        }
    }
}
