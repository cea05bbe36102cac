use vstd::prelude::*;

use crate::errors::InstructionError;
use crate::state::config::Config;

verus! {

/// What the instruction writes: the newly created configuration account.
pub struct InitializeConfig {
    pub config: Config,
}

/// Bump seed of the configuration's program address.
pub struct InitializeConfigBumps {
    pub config: u8,
}

impl InitializeConfig {
    /// Makes `authority` both admin and oracle authority, records the bump and starts the
    /// account counter at zero. The other fields stay as they are.
    pub fn initialize_config(
        &mut self,
        authority: [u8; 32],
        bumps: &InitializeConfigBumps,
    ) -> (res: Result<(), InstructionError>)
        ensures
            res is Ok,
            final(self).config.oracle_authority == authority,
            final(self).config.admin == authority,
            final(self).config.bump == bumps.config,
            final(self).config.counter == 0,
            final(self).config.tip_distribution_program
                == old(self).config.tip_distribution_program,
            final(self).config.padding0 == old(self).config.padding0,
            final(self).config.priority_fee_distribution_program
                == old(self).config.priority_fee_distribution_program,
            final(self).config.priority_fee_oracle_authority
                == old(self).config.priority_fee_oracle_authority,
            final(self).config.reserve == old(self).config.reserve,
    {
        self.config.oracle_authority = authority;
        self.config.admin = authority;
        self.config.bump = bumps.config;
        self.config.counter = 0;
        Ok(())
    }
}

} // verus!
