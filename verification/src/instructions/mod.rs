pub mod initialize_config;
pub mod initialize_validator_history_account;
pub mod realloc_validator_history_account;
