use vstd::prelude::*;

verus! {

/// Program configuration account.
pub struct Config {
    /// This program is used to distribute MEV + track which validators are running
    /// jito-solana for a given epoch
    pub tip_distribution_program: [u8; 32],
    /// Has the ability to upgrade config fields
    pub admin: [u8; 32],
    /// Has the ability to publish data for specific permissioned fields (e.g. stake per
    /// validator)
    pub oracle_authority: [u8; 32],
    /// Tracks number of initialized ValidatorHistory accounts
    pub counter: u32,
    pub bump: u8,
    pub padding0: [u8; 3],
    pub priority_fee_distribution_program: [u8; 32],
    pub priority_fee_oracle_authority: [u8; 32],
    pub reserve: [u8; 224],
}

impl Config {
    /// The ASCII bytes of `config`, the seed of the account's program address.
    pub const SEED: [u8; 6] = [99, 111, 110, 102, 105, 103];
    /// Bytes of the account: discriminator (8) and the fields (392).
    pub const SIZE: usize = 8 + 3 * 32 + 4 + 1 + 3 + 2 * 32 + 224;

    /// Every byte of the configuration is zero.
    pub open spec fn is_zeroed(&self) -> bool {
        &&& self.tip_distribution_program@ == Seq::new(32, |i: int| 0u8)
        &&& self.admin@ == Seq::new(32, |i: int| 0u8)
        &&& self.oracle_authority@ == Seq::new(32, |i: int| 0u8)
        &&& self.counter == 0
        &&& self.bump == 0
        &&& self.padding0@ == Seq::new(3, |i: int| 0u8)
        &&& self.priority_fee_distribution_program@ == Seq::new(32, |i: int| 0u8)
        &&& self.priority_fee_oracle_authority@ == Seq::new(32, |i: int| 0u8)
        &&& self.reserve@ == Seq::new(224, |i: int| 0u8)
    }
}

impl Default for Config {
    fn default() -> (config: Self)
        ensures
            config.is_zeroed(),
    {
        broadcast use vstd::array::group_array_axioms;

        let config = Self {
            tip_distribution_program: [0u8; 32],
            admin: [0u8; 32],
            oracle_authority: [0u8; 32],
            counter: 0,
            bump: 0,
            padding0: [0u8; 3],
            priority_fee_distribution_program: [0u8; 32],
            priority_fee_oracle_authority: [0u8; 32],
            reserve: [0u8; 224],
        };
        assert(config.tip_distribution_program@ =~= Seq::new(32, |i: int| 0u8));
        assert(config.admin@ =~= Seq::new(32, |i: int| 0u8));
        assert(config.oracle_authority@ =~= Seq::new(32, |i: int| 0u8));
        assert(config.padding0@ =~= Seq::new(3, |i: int| 0u8));
        assert(config.priority_fee_distribution_program@ =~= Seq::new(32, |i: int| 0u8));
        assert(config.priority_fee_oracle_authority@ =~= Seq::new(32, |i: int| 0u8));
        assert(config.reserve@ =~= Seq::new(224, |i: int| 0u8));
        config
    }
}

} // verus!
