use vstd::prelude::*;

verus! {

/// Native account identifier of the benchmark runtime.
pub type AccountId = u64;

/// Balance type of the benchmark runtime.
pub type Balance = u128;

/// Seed from which benchmark accounts are derived.
pub const SEED: u32 = 999999999;

/// Number of contributors assumed to be registered before a measured call.
pub const MAX_ALREADY_USERS: u32 = 5799;

/// The pallet configuration values that the benchmark setup reads.
pub struct BenchConfig {
    /// The minimum reward a contributor can be given (`MinimumReward`).
    pub minimum_reward: Balance,
    /// The most contributors one `initialize_reward_vec` call accepts
    /// (`MaxInitContributors`).
    pub max_init_contributors: u32,
}

impl BenchConfig {
    /// Default balance of a funded account: the minimum reward.
    pub fn default_balance(&self) -> (r: Balance)
        ensures
            r == self.minimum_reward,
    {
        self.minimum_reward
    }

    /// Size of the batches in which contributors are inserted.
    pub fn max_batch_contributors(&self) -> (r: u32)
        ensures
            r == self.max_init_contributors,
    {
        self.max_init_contributors
    }
}

} // verus!
