use vstd::prelude::*;

use crate::config::{AccountId, Balance, BenchConfig};
use crate::contributors::{Contribution, CONTRIBUTION};

verus! {

/// How an account is funded: its free balance is set to `free_balance`
/// and the total issuance is raised by `issuance`.
pub struct Funding {
    pub account: AccountId,
    pub free_balance: Balance,
    pub issuance: Balance,
}

/// Funding of `pallet_account` with the default balance plus `extra`: the
/// account's free balance becomes that total, and the same total is issued.
pub fn fund_specific_account(cfg: &BenchConfig, pallet_account: AccountId, extra: Balance) -> (f:
    Funding)
    requires
        cfg.minimum_reward + extra <= Balance::MAX,
    ensures
        f.account == pallet_account,
        f.free_balance == cfg.minimum_reward + extra,
        f.issuance == f.free_balance,
{
    let default_balance = cfg.default_balance();
    let total = default_balance + extra;
    Funding { account: pallet_account, free_balance: total, issuance: total }
}

/// Sum of the rewards owed to `contributors`.
pub open spec fn total_rewards(contributors: Seq<Contribution>) -> int
    decreases contributors.len(),
{
    if contributors.len() == 0 {
        0
    } else {
        total_rewards(contributors.drop_last()) + contributors.last().2
    }
}

/// The reward pot funded for `existing` contributors already registered and
/// `new` contributors about to be: `CONTRIBUTION` for each of them.
pub fn reward_pot(new: u32, existing: u32) -> (pot: u32)
    requires
        CONTRIBUTION * (new + existing) <= u32::MAX,
    ensures
        pot == CONTRIBUTION * (new + existing),
{
    100u32 * (new + existing)
}

/// Rewards of contributors that are each owed `CONTRIBUTION` add up to
/// `CONTRIBUTION` per contributor.
proof fn lemma_uniform_rewards(s: Seq<Contribution>)
    requires
        forall|i: int| 0 <= i < s.len() ==> #[trigger] s[i].2 == CONTRIBUTION,
    ensures
        total_rewards(s) == CONTRIBUTION * s.len(),
    decreases s.len(),
{
    if s.len() > 0 {
        let t = s.drop_last();
        assert forall|i: int| 0 <= i < t.len() implies #[trigger] t[i].2 == CONTRIBUTION by {
            assert(t[i] == s[i]);
        }
        lemma_uniform_rewards(t);
        assert(s.last() == s[s.len() - 1]);
    }
}

/// Law: the reward pot funded for `new` and `existing` contributors covers
/// exactly the rewards owed to the contributors generated for them (each
/// owed `CONTRIBUTION`).
pub proof fn lemma_pot_covers_rewards(
    existing_contributors: Seq<Contribution>,
    new_contributors: Seq<Contribution>,
)
    requires
        forall|i: int|
            0 <= i < existing_contributors.len() ==> #[trigger] existing_contributors[i].2
                == CONTRIBUTION,
        forall|i: int|
            0 <= i < new_contributors.len() ==> #[trigger] new_contributors[i].2 == CONTRIBUTION,
    ensures
        total_rewards(existing_contributors + new_contributors) == CONTRIBUTION * (
        new_contributors.len() + existing_contributors.len()),
{
    let all = existing_contributors + new_contributors;
    assert forall|i: int| 0 <= i < all.len() implies #[trigger] all[i].2 == CONTRIBUTION by {
        if i < existing_contributors.len() {
            assert(all[i] == existing_contributors[i]);
        } else {
            assert(all[i] == new_contributors[i - existing_contributors.len()]);
        }
    }
    lemma_uniform_rewards(all);
}

} // verus!
