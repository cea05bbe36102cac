//! Validator history state and instruction logic.
pub mod errors;
pub mod instructions;
pub mod state;
