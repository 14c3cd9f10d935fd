use vstd::prelude::*;

use crate::config::{AccountId, Balance, SEED};

verus! {

/// A relay-chain account: 32 raw bytes.
pub type RelayAccount = [u8; 32];

/// One entry handed to `initialize_reward_vec`: the contributor's relay
/// account, the native account already associated with it (if any), and
/// the reward it is owed.
pub type Contribution = (RelayAccount, Option<AccountId>, Balance);

/// Reward given to every generated contributor.
pub const CONTRIBUTION: Balance = 100;

/// The four bytes of `x`, most significant first.
pub open spec fn be_bytes_u32(x: u32) -> Seq<u8> {
    seq![
        ((x / 0x100_0000) % 0x100) as u8,
        ((x / 0x1_0000) % 0x100) as u8,
        ((x / 0x100) % 0x100) as u8,
        (x % 0x100) as u8,
    ]
}

/// The relay account generated from `seed`: its big-endian bytes followed
/// by zeros.
pub open spec fn relay_account_of(seed: u32) -> Seq<u8> {
    be_bytes_u32(seed) + Seq::new(28, |j: int| 0u8)
}

/// Seed of the `i`-th contributor generated with offset `seed_offset`.
pub open spec fn contributor_seed(seed_offset: int, i: int) -> int {
    SEED - seed_offset - i
}

/// Whether `total` contributors can be generated from `seed_offset`
/// without the seed going below zero.
pub open spec fn seeds_fit(total: int, seed_offset: int) -> bool {
    total > 0 ==> seed_offset + total - 1 <= SEED
}

proof fn lemma_be_bytes_injective(x: u32, y: u32)
    by (bit_vector)
    requires
        (x / 0x100_0000) % 0x100 == (y / 0x100_0000) % 0x100,
        (x / 0x1_0000) % 0x100 == (y / 0x1_0000) % 0x100,
        (x / 0x100) % 0x100 == (y / 0x100) % 0x100,
        x % 0x100 == y % 0x100,
    ensures
        x == y,
{
}

/// Law: different seeds give different relay accounts.
pub proof fn lemma_relay_account_injective(x: u32, y: u32)
    requires
        relay_account_of(x) == relay_account_of(y),
    ensures
        x == y,
{
    assert(relay_account_of(x).subrange(0, 4) =~= be_bytes_u32(x));
    assert(relay_account_of(y).subrange(0, 4) =~= be_bytes_u32(y));
    let bx = be_bytes_u32(x);
    let by = be_bytes_u32(y);
    assert(bx[0] == by[0] && bx[1] == by[1] && bx[2] == by[2] && bx[3] == by[3]);
    lemma_be_bytes_injective(x, y);
}

/// Law: contributors generated at different positions (offset plus index)
/// get different relay accounts; in particular the contributors generated
/// with offset `y` after `y` contributors generated with offset `0` are all
/// new.
pub proof fn lemma_contributor_accounts_distinct(offset_a: int, i: int, offset_b: int, j: int)
    requires
        0 <= offset_a,
        0 <= i,
        0 <= offset_b,
        0 <= j,
        offset_a + i <= SEED,
        offset_b + j <= SEED,
        offset_a + i != offset_b + j,
    ensures
        relay_account_of(contributor_seed(offset_a, i) as u32) != relay_account_of(
            contributor_seed(offset_b, j) as u32,
        ),
{
    if relay_account_of(contributor_seed(offset_a, i) as u32) == relay_account_of(
        contributor_seed(offset_b, j) as u32,
    ) {
        lemma_relay_account_injective(
            contributor_seed(offset_a, i) as u32,
            contributor_seed(offset_b, j) as u32,
        );
    }
}

proof fn lemma_be_bytes_value(x: u32)
    by (bit_vector)
    ensures
        ((x / 0x100_0000) % 0x100) * 0x100_0000 + ((x / 0x1_0000) % 0x100) * 0x1_0000 + ((x / 0x100)
            % 0x100) * 0x100 + x % 0x100 == x,
{
}

/// Law: a relay account generated from `seed` is 32 bytes long; its first
/// four bytes, read as a big-endian number, give back `seed`, and all its
/// other bytes are zero.
pub proof fn lemma_relay_account_layout(seed: u32)
    ensures
        relay_account_of(seed).len() == 32,
        relay_account_of(seed)[0] * 0x100_0000 + relay_account_of(seed)[1] * 0x1_0000
            + relay_account_of(seed)[2] * 0x100 + relay_account_of(seed)[3] == seed,
        forall|k: int| 4 <= k < 32 ==> #[trigger] relay_account_of(seed)[k] == 0,
{
    let a = relay_account_of(seed);
    assert(a.subrange(0, 4) =~= be_bytes_u32(seed));
    let b = be_bytes_u32(seed);
    assert(a[0] == b[0] && a[1] == b[1] && a[2] == b[2] && a[3] == b[3]);
    lemma_be_bytes_value(seed);
    assert forall|k: int| 4 <= k < 32 implies #[trigger] relay_account_of(seed)[k] == 0 by {
        assert(a[k] == Seq::new(28, |j: int| 0u8)[k - 4]);
    }
}

/// Law: with any offset, the first contributor gets seed `SEED - offset`
/// and each further contributor the seed just below its predecessor's.
pub proof fn lemma_contributor_seeds_count_down(seed_offset: int, i: int)
    ensures
        contributor_seed(seed_offset, 0) == SEED - seed_offset,
        contributor_seed(seed_offset, i + 1) == contributor_seed(seed_offset, i) - 1,
{
}

/// The relay account generated from `seed`.
pub fn relay_account_from_seed(seed: u32) -> (account: RelayAccount)
    ensures
        account@ == relay_account_of(seed),
        account[0] * 0x100_0000 + account[1] * 0x1_0000 + account[2] * 0x100 + account[3] == seed,
        forall|k: int| 4 <= k < 32 ==> #[trigger] account[k] == 0,
{
    let b0: u8 = ((seed / 0x100_0000) % 0x100) as u8;
    let b1: u8 = ((seed / 0x1_0000) % 0x100) as u8;
    let b2: u8 = ((seed / 0x100) % 0x100) as u8;
    let b3: u8 = (seed % 0x100) as u8;
    let account: RelayAccount = [
        b0, b1, b2, b3, 0, 0, 0, 0, 0, 0, 0, 0, 0, 0, 0, 0,
        0, 0, 0, 0, 0, 0, 0, 0, 0, 0, 0, 0, 0, 0, 0, 0,
    ];
    assert(account@ =~= relay_account_of(seed));
    proof {
        lemma_relay_account_layout(seed);
    }
    account
}

/// The seeds of the `total_number` contributors generated from
/// `seed_offset`, in order: the native account of the `i`-th contributor is
/// the benchmark account `("user", seeds[i])`.
pub fn contributor_seeds(total_number: u32, seed_offset: u32) -> (seeds: Vec<u32>)
    requires
        seeds_fit(total_number as int, seed_offset as int),
    ensures
        seeds.len() == total_number,
        forall|i: int|
            0 <= i < total_number ==> seeds@[i] == contributor_seed(seed_offset as int, i),
        total_number > 0 ==> seeds@[0] + seed_offset == SEED,
        forall|i: int| 0 <= i < total_number - 1 ==> #[trigger] seeds@[i + 1] + 1 == seeds@[i],
{
    let mut seeds: Vec<u32> = Vec::new();
    for i in 0..total_number
        invariant
            seeds_fit(total_number as int, seed_offset as int),
            seeds.len() == i,
            forall|k: int| 0 <= k < i ==> seeds@[k] == contributor_seed(seed_offset as int, k),
    {
        let seed = SEED - seed_offset - i;
        seeds.push(seed);
    }
    proof {
        assert forall|i: int| 0 <= i < total_number - 1 implies #[trigger] seeds@[i + 1] + 1
            == seeds@[i] by {
            lemma_contributor_seeds_count_down(seed_offset as int, i);
        }
        lemma_contributor_seeds_count_down(seed_offset as int, 0);
    }
    seeds
}

/// The `total_number` contributors generated from `seed_offset`, whose
/// native accounts are `users` (one per contributor, in order): contributor
/// `i` has the relay account of seed `SEED - seed_offset - i`, is already
/// associated with `users[i]`, and is owed `CONTRIBUTION`.
pub fn create_contributors(total_number: u32, seed_offset: u32, users: &Vec<AccountId>) -> (r: Vec<
    Contribution,
>)
    requires
        users.len() == total_number,
        seeds_fit(total_number as int, seed_offset as int),
    ensures
        r.len() == total_number,
        forall|i: int|
            #![trigger r@[i]]
            0 <= i < total_number ==> {
                &&& r@[i].0@ == relay_account_of(contributor_seed(seed_offset as int, i) as u32)
                &&& r@[i].1 == Some(users@[i])
                &&& r@[i].2 == CONTRIBUTION
            },
        forall|i: int, j: int|
            0 <= i < total_number && 0 <= j < total_number && i != j ==> r@[i].0 != r@[j].0,
{
    let mut contribution_vec: Vec<Contribution> = Vec::new();
    for i in 0..total_number
        invariant
            users.len() == total_number,
            seeds_fit(total_number as int, seed_offset as int),
            contribution_vec.len() == i,
            forall|k: int|
                #![trigger contribution_vec@[k]]
                0 <= k < i ==> {
                    &&& contribution_vec@[k].0@ == relay_account_of(
                        contributor_seed(seed_offset as int, k) as u32,
                    )
                    &&& contribution_vec@[k].1 == Some(users@[k])
                    &&& contribution_vec@[k].2 == CONTRIBUTION
                },
    {
        let seed = SEED - seed_offset - i;
        let relay_chain_account = relay_account_from_seed(seed);
        contribution_vec.push((relay_chain_account, Some(users[i as usize]), CONTRIBUTION));
    }
    proof {
        assert forall|i: int, j: int|
            0 <= i < total_number && 0 <= j < total_number && i != j implies contribution_vec@[i].0
            != contribution_vec@[j].0 by {
            lemma_contributor_accounts_distinct(seed_offset as int, i, seed_offset as int, j);
            if contribution_vec@[i].0 == contribution_vec@[j].0 {
                assert(contribution_vec@[i].0@ == contribution_vec@[j].0@);
            }
        }
    }
    contribution_vec
}

} // verus!
