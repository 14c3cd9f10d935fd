use ed25519_dalek::Verifier;
use crowdloan_bench::batching::insert_contributors;
use crowdloan_bench::config::{BenchConfig, MAX_ALREADY_USERS, SEED};
use crowdloan_bench::contributors::{
    contributor_seeds, create_contributors, relay_account_from_seed, Contribution, CONTRIBUTION,
};
use crowdloan_bench::funding::{fund_specific_account, reward_pot};
use crowdloan_bench::relay_data::{create_inherent_data, MAX_POV_SIZE, MOCK_PROOF, MOCK_PROOF_HASH};
use crowdloan_bench::signing::{create_sig, identity_proof, MultiSignature};

fn cfg(minimum_reward: u128, max_init_contributors: u32) -> BenchConfig {
    BenchConfig { minimum_reward, max_init_contributors }
}

fn sample(n: u32, offset: u32) -> Vec<Contribution> {
    let users: Vec<u64> = (0..n as u64).map(|i| 1000 + i).collect();
    create_contributors(n, offset, &users)
}

#[test]
fn default_balance_is_minimum_reward() {
    assert_eq!(cfg(42, 7).default_balance(), 42);
}

#[test]
fn max_batch_contributors_reads_config() {
    assert_eq!(cfg(42, 7).max_batch_contributors(), 7);
}

#[test]
fn fund_specific_account_sets_and_issues_total() {
    let total_pot: u128 = 100 * (3 + MAX_ALREADY_USERS as u128);
    let f = fund_specific_account(&cfg(10, 5), 77, total_pot);
    assert_eq!(f.account, 77);
    assert_eq!(f.free_balance, 580_210);
    assert_eq!(f.issuance, 580_210);
}

#[test]
fn fund_specific_account_without_extra() {
    let f = fund_specific_account(&cfg(3, 5), 1, 0);
    assert_eq!(f.free_balance, 3);
    assert_eq!(f.issuance, 3);
}

#[test]
fn relay_account_is_big_endian_seed_then_zeros() {
    let a = relay_account_from_seed(SEED);
    assert_eq!(&a[..4], &[0x3B, 0x9A, 0xC9, 0xFF]);
    assert!(a[4..].iter().all(|b| *b == 0));
    assert_eq!(&relay_account_from_seed(0x0102_0304)[..4], &[1, 2, 3, 4]);
    assert_eq!(relay_account_from_seed(0), [0u8; 32]);
}

#[test]
fn contributor_seeds_count_down_from_offset() {
    assert_eq!(
        contributor_seeds(3, MAX_ALREADY_USERS),
        vec![SEED - 5799, SEED - 5800, SEED - 5801]
    );
    assert_eq!(contributor_seeds(0, SEED + 1), Vec::<u32>::new());
    assert_eq!(contributor_seeds(1, SEED), vec![0]);
}

#[test]
fn create_contributors_fields() {
    let users = vec![11u64, 12, 13];
    let c = create_contributors(3, 2, &users);
    assert_eq!(c.len(), 3);
    for i in 0..3u32 {
        let entry = c[i as usize];
        assert_eq!(entry.0, relay_account_from_seed(SEED - 2 - i));
        assert_eq!(entry.1, Some(users[i as usize]));
        assert_eq!(entry.2, CONTRIBUTION);
        assert_eq!(entry.2, 100);
    }
}

#[test]
fn new_contributors_differ_from_existing_ones() {
    let existing = sample(50, 0);
    let new = sample(20, 50);
    let mut accounts: Vec<[u8; 32]> = existing.iter().chain(new.iter()).map(|c| c.0).collect();
    accounts.sort();
    accounts.dedup();
    assert_eq!(accounts.len(), 70);
}

#[test]
fn insert_contributors_uneven_batches() {
    let c = sample(7, 0);
    let calls = insert_contributors(&cfg(1, 3), &c);
    let sizes: Vec<usize> = calls.iter().map(|b| b.len()).collect();
    assert_eq!(sizes, vec![3, 3, 1]);
    let flat: Vec<Contribution> = calls.concat();
    assert_eq!(flat, c);
    assert_eq!(calls[1][0], c[3]);
}

#[test]
fn insert_contributors_exact_multiple() {
    let c = sample(6, 0);
    let calls = insert_contributors(&cfg(1, 3), &c);
    assert_eq!(calls, vec![c[0..3].to_vec(), c[3..6].to_vec()]);
}

#[test]
fn insert_contributors_fewer_than_batch() {
    let c = sample(2, 0);
    let calls = insert_contributors(&cfg(1, 500), &c);
    assert_eq!(calls, vec![c.clone()]);
}

#[test]
fn insert_contributors_batch_of_one() {
    let c = sample(4, 0);
    let calls = insert_contributors(&cfg(1, 1), &c);
    assert_eq!(calls.len(), 4);
    assert!(calls.iter().enumerate().all(|(i, b)| b == &vec![c[i]]));
}

#[test]
fn insert_no_contributors_makes_no_call() {
    let calls = insert_contributors(&cfg(1, 0), &Vec::new());
    assert!(calls.is_empty());
}

#[test]
fn inherent_data_for_block() {
    let d = create_inherent_data(4);
    assert_eq!(d.validation_data.relay_parent_number, 4);
    assert_eq!(d.validation_data.relay_parent_storage_root, MOCK_PROOF_HASH);
    assert_eq!(d.validation_data.max_pov_size, MAX_POV_SIZE);
    assert_eq!(d.validation_data.max_pov_size, 1000);
    assert_eq!(d.validation_data.parent_head, vec![1, 1, 1]);
    assert_eq!(d.relay_chain_state, vec![MOCK_PROOF.to_vec()]);
    assert_eq!(MOCK_PROOF[0], 127);
    assert_eq!(MOCK_PROOF_HASH[31], 141);
}

#[test]
fn identity_proof_wraps_key_and_signature() {
    let (account, sig) = identity_proof([5u8; 32], [6u8; 64]);
    assert_eq!(account, [5u8; 32]);
    match sig {
        MultiSignature::Ed25519(s) => assert_eq!(s, [6u8; 64]),
        _ => panic!("not an ed25519 signature"),
    }
}

#[test]
fn create_sig_signs_encoded_account() {
    let (account, sig) = create_sig(7);
    let secret = ed25519_dalek::SecretKey::from_bytes(&[1u8; 32]).unwrap();
    let public = ed25519_dalek::PublicKey::from(&secret);
    assert_eq!(account, public.to_bytes());
    assert_ne!(account, [1u8; 32]);
    let bytes = match sig {
        MultiSignature::Ed25519(s) => s,
        _ => panic!("not an ed25519 signature"),
    };
    let signature = ed25519_dalek::Signature::from_bytes(&bytes).unwrap();
    assert!(public.verify(&7u64.to_le_bytes(), &signature).is_ok());
    assert!(public.verify(&8u64.to_le_bytes(), &signature).is_err());
}

#[test]
fn create_sig_depends_on_account_only_through_signature() {
    let (a1, s1) = create_sig(1);
    let (a2, s2) = create_sig(2);
    assert_eq!(a1, a2);
    let b1 = match s1 {
        MultiSignature::Ed25519(s) => s,
        _ => panic!(),
    };
    let b2 = match s2 {
        MultiSignature::Ed25519(s) => s,
        _ => panic!(),
    };
    assert_ne!(b1, b2);
    let (_, s1_again) = create_sig(1);
    match s1_again {
        MultiSignature::Ed25519(s) => assert_eq!(s, b1),
        _ => panic!(),
    }
}

#[test]
fn reward_pot_pays_every_contributor() {
    assert_eq!(reward_pot(3, MAX_ALREADY_USERS), 580_200);
    assert_eq!(reward_pot(0, 0), 0);
    let existing = sample(5, 0);
    let new = sample(3, 5);
    let owed: u128 = existing.iter().chain(new.iter()).map(|c| c.2).sum();
    assert_eq!(owed, reward_pot(3, 5) as u128);
}
