use vstd::prelude::*;

use ed25519_dalek::Signer;

use crate::config::AccountId;
use crate::contributors::RelayAccount;

verus! {

/// The ed25519 public key (compressed point) derived from a 32-byte secret
/// key, as `ed25519_dalek` computes it.
pub uninterp spec fn ed25519_public_key(secret: Seq<u8>) -> Seq<u8>;

/// The deterministic ed25519 signature of `message` by the keypair
/// `(secret, public)`, as `ed25519_dalek` computes it.
pub uninterp spec fn ed25519_signature(secret: Seq<u8>, public: Seq<u8>, message: Seq<u8>) -> Seq<
    u8,
>;

/// A signature of one of the schemes a relay account may use.
pub enum MultiSignature {
    Ed25519([u8; 64]),
    Sr25519([u8; 64]),
    Ecdsa([u8; 65]),
}

/// The secret key with which the benchmark proves its relay identity: 32
/// bytes of value 1.
pub open spec fn signing_secret() -> Seq<u8> {
    Seq::new(32, |i: int| 1u8)
}

/// The eight bytes of `x`, least significant first.
pub open spec fn le_bytes_u64(x: u64) -> Seq<u8> {
    seq![
        (x % 0x100) as u8,
        ((x / 0x100) % 0x100) as u8,
        ((x / 0x1_0000) % 0x100) as u8,
        ((x / 0x100_0000) % 0x100) as u8,
        ((x / 0x1_0000_0000) % 0x100) as u8,
        ((x / 0x100_0000_0000) % 0x100) as u8,
        ((x / 0x1_0000_0000_0000) % 0x100) as u8,
        ((x / 0x100_0000_0000_0000) % 0x100) as u8,
    ]
}

proof fn lemma_le_bytes_value(x: u64)
    by (bit_vector)
    ensures
        x % 0x100 + ((x / 0x100) % 0x100) * 0x100 + ((x / 0x1_0000) % 0x100) * 0x1_0000 + ((x
            / 0x100_0000) % 0x100) * 0x100_0000 + ((x / 0x1_0000_0000) % 0x100) * 0x1_0000_0000 + ((x
            / 0x100_0000_0000) % 0x100) * 0x100_0000_0000 + ((x / 0x1_0000_0000_0000) % 0x100)
            * 0x1_0000_0000_0000 + ((x / 0x100_0000_0000_0000) % 0x100) * 0x100_0000_0000_0000 == x,
{
}

/// Law: the SCALE encoding of an account is eight bytes which, read as a
/// little-endian number, give back the whole account.
pub proof fn lemma_le_bytes_roundtrip(x: u64)
    ensures
        le_bytes_u64(x).len() == 8,
        le_bytes_u64(x)[0] + le_bytes_u64(x)[1] * 0x100 + le_bytes_u64(x)[2] * 0x1_0000
            + le_bytes_u64(x)[3] * 0x100_0000 + le_bytes_u64(x)[4] * 0x1_0000_0000 + le_bytes_u64(
            x,
        )[5] * 0x100_0000_0000 + le_bytes_u64(x)[6] * 0x1_0000_0000_0000 + le_bytes_u64(x)[7]
            * 0x100_0000_0000_0000 == x,
{
    lemma_le_bytes_value(x);
}

/// Law: different accounts have different encodings, so a signature of one
/// account's encoding is never one of another's.
pub proof fn lemma_le_bytes_injective(x: u64, y: u64)
    requires
        le_bytes_u64(x) == le_bytes_u64(y),
    ensures
        x == y,
{
    lemma_le_bytes_roundtrip(x);
    lemma_le_bytes_roundtrip(y);
}

/// Calls `ed25519_dalek::PublicKey::from(&SecretKey)` on the secret key
/// made of `secret` (`SecretKey::from_bytes` accepts any 32 bytes) and
/// returns the public key's bytes, which are named `ed25519_public_key`.
#[verifier::external_body]
fn public_key_of(secret: &[u8; 32]) -> (public: [u8; 32])
    ensures
        public@ == ed25519_public_key(secret@),
{
    let secret_key = ed25519_dalek::SecretKey::from_bytes(secret).unwrap();
    ed25519_dalek::PublicKey::from(&secret_key).to_bytes()
}

/// Calls `Signer::sign` of `ed25519_dalek::Keypair` on the keypair made of
/// `secret` and its public key `public` (which decompresses, being derived
/// from `secret`) and returns the signature's bytes, which are named
/// `ed25519_signature`.
#[verifier::external_body]
fn sign_with(secret: &[u8; 32], public: &[u8; 32], message: &[u8]) -> (signature: [u8; 64])
    requires
        public@ == ed25519_public_key(secret@),
    ensures
        signature@ == ed25519_signature(secret@, public@, message@),
{
    let keypair = ed25519_dalek::Keypair {
        secret: ed25519_dalek::SecretKey::from_bytes(secret).unwrap(),
        public: ed25519_dalek::PublicKey::from_bytes(public).unwrap(),
    };
    keypair.sign(message).to_bytes()
}

/// Calls `parity_scale_codec::Encode::encode` on an account id; SCALE
/// encodes a `u64` as its eight bytes in little-endian order.
#[verifier::external_body]
fn encode_account(account: &AccountId) -> (bytes: Vec<u8>)
    ensures
        bytes@ == le_bytes_u64(*account),
{
    parity_scale_codec::Encode::encode(account)
}

/// The relay account and signature that prove ownership of the relay
/// account whose ed25519 public key is `public`: the account is the public
/// key itself and the signature is an ed25519 one.
pub fn identity_proof(public: [u8; 32], signature: [u8; 64]) -> (r: (RelayAccount, MultiSignature))
    ensures
        r.0 == public,
        r.1 == MultiSignature::Ed25519(signature),
{
    (public, MultiSignature::Ed25519(signature))
}

/// A relay account and its signature of the encoded `signed_account`,
/// made with the fixed benchmark secret key: the account is the public key
/// of that secret, and the signature is the ed25519 signature of the
/// account's SCALE encoding.
pub fn create_sig(signed_account: AccountId) -> (r: (RelayAccount, MultiSignature))
    ensures
        r.0@ == ed25519_public_key(signing_secret()),
        match r.1 {
            MultiSignature::Ed25519(s) => s@ == ed25519_signature(
                signing_secret(),
                ed25519_public_key(signing_secret()),
                le_bytes_u64(signed_account),
            ),
            _ => false,
        },
{
    let seed: [u8; 32] = [1u8; 32];
    assert(seed@ =~= signing_secret());
    let public = public_key_of(&seed);
    let message = encode_account(&signed_account);
    let sig = sign_with(&seed, &public, message.as_slice());
    identity_proof(public, sig)
}

} // verus!
