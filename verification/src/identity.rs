//! The node's identity: an Ed25519 key pair derived from a one-byte seed.
use vstd::prelude::*;
use libp2p::identity::{DecodingError, Keypair};
use libp2p::PeerId;

verus! {

/// Identifies a peer of the network; the library only carries it.
#[verifier::external_type_specification]
#[verifier::external_body]
pub struct ExPeerId(PeerId);

/// A key pair of the identity crate; the library only carries it.
#[verifier::external_type_specification]
#[verifier::external_body]
pub struct ExKeypair(Keypair);

/// The error of the identity crate when key bytes do not decode.
#[verifier::external_type_specification]
#[verifier::external_body]
pub struct ExDecodingError(DecodingError);

/// The Ed25519 key pair whose 32-byte secret is `secret`.
pub uninterp spec fn ed25519_keypair_from(secret: Seq<u8>) -> Keypair;

/// The 32 secret-key bytes derived from `seed`: the seed, then 31 zero bytes.
pub open spec fn seed_secret(seed: u8) -> Seq<u8> {
    Seq::new(32, |i: int| if i == 0 { seed } else { 0u8 })
}

/// Calls `Keypair::ed25519_from_bytes` of `libp2p-identity`.
///
/// The source parses the slice as a 32-byte Ed25519 secret, which cannot
/// fail on an array of 32 bytes, zeroes the slice, and builds the key pair
/// from that secret: the result is the key pair of the bytes handed in, and
/// the bytes are all zero afterwards. The Ed25519 key pair keeps the secret
/// bytes as they were given (`ed25519_dalek::SigningKey::from_bytes` stores
/// them), so the key pair of any other 32 bytes is a different value. Nothing
/// is said of other lengths, which the call refuses.
#[verifier::external_body]
fn ed25519_keypair_from_bytes(secret: &mut [u8; 32]) -> (keypair: Result<Keypair, DecodingError>)
    ensures
        keypair matches Ok(k) && k == ed25519_keypair_from(old(secret)@),
        keypair matches Ok(k) && forall|other: Seq<u8>|
            other.len() == 32 && other != old(secret)@ ==> #[trigger] ed25519_keypair_from(other)
                != k,
        final(secret)@ == Seq::new(32, |i: int| 0u8),
{
    Keypair::ed25519_from_bytes(secret)
}

/// Derives the node's key pair from `secret_key_seed`, so that one seed
/// always gives the same identity, and another seed another one.
pub fn generate_ed25519(secret_key_seed: u8) -> (keypair: Keypair)
    ensures
        keypair == ed25519_keypair_from(seed_secret(secret_key_seed)),
        keypair == ed25519_keypair_from(seq![secret_key_seed] + Seq::new(31, |i: int| 0u8)),
        forall|other: u8|
            other != secret_key_seed ==> #[trigger] ed25519_keypair_from(seed_secret(other))
                != keypair,
{
    let mut bytes = [0u8; 32];
    bytes[0] = secret_key_seed;
    assert(bytes@ =~= seed_secret(secret_key_seed));
    let keypair = ed25519_keypair_from_bytes(&mut bytes);
    proof {
        seed_secret_is_seed_then_zeros(secret_key_seed);
        assert forall|other: u8| other != secret_key_seed implies #[trigger] ed25519_keypair_from(
            seed_secret(other),
        ) != ed25519_keypair_from(seed_secret(secret_key_seed)) by {
            distinct_seeds_give_distinct_secrets(other, secret_key_seed);
        }
    }
    keypair.expect("this returns `Err` only if the length is wrong; the length is correct; qed")
}

/// Two different seeds give two different secret keys.
pub proof fn distinct_seeds_give_distinct_secrets(a: u8, b: u8)
    requires
        a != b,
    ensures
        seed_secret(a) != seed_secret(b),
{
    assert(seed_secret(a)[0] != seed_secret(b)[0]);
}

/// The secret derived from a seed is 32 bytes: the seed, then 31 zero bytes.
pub proof fn seed_secret_is_seed_then_zeros(seed: u8)
    ensures
        seed_secret(seed).len() == 32,
        seed_secret(seed)[0] == seed,
        forall|i: int| 1 <= i < 32 ==> #[trigger] seed_secret(seed)[i] == 0u8,
        seed_secret(seed) == seq![seed] + Seq::new(31, |i: int| 0u8),
{
    assert(seed_secret(seed) =~= seq![seed] + Seq::new(31, |i: int| 0u8));
}

} // verus!
