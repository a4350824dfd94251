//! A signing identity held as a 32-byte seed. The Ed25519 secret key is the
//! first 32 bytes of the ChaCha20 stream seeded with it.

use vstd::prelude::*;
use crate::primitives::{
    chacha20_fill_32, chacha20_first_32, ed25519_key_decodes, ed25519_key_is_valid,
    ed25519_public_key, ed25519_public_key_of, ed25519_sign, ed25519_signature,
    ed25519_verifies_under_key, ed25519_verifies_under_secret, ed25519_verify_under_key,
    ed25519_verify_under_secret, random_seed,
};

verus! {

pub struct Keypair {
    bytes: [u8; 32],
}

/// Why a keypair could not be made.
#[derive(Debug, PartialEq, Eq)]
pub enum KeypairError {
    SeedGenerationFailed,
}

impl KeypairError {
    /// The text reported for the error.
    pub fn message(&self) -> (s: String)
        ensures
            s@ == "keypair seed generation failed."@,
    {
        String::from_str("keypair seed generation failed.")
    }
}

/// The Ed25519 secret key that a seed stands for.
pub open spec fn secret_of(seed: Seq<u8>) -> Seq<u8> {
    chacha20_first_32(seed)
}

/// Copies `s[0..32]` into an array.
fn first_32(s: &[u8]) -> (a: [u8; 32])
    requires
        s@.len() >= 32,
    ensures
        a@ == s@.subrange(0, 32),
{
    let mut a: [u8; 32] = [0; 32];
    let mut i: usize = 0;
    while i < 32
        invariant
            0 <= i <= 32,
            s@.len() >= 32,
            forall|j: int| 0 <= j < i ==> a@[j] == s@[j],
        decreases 32 - i,
    {
        a[i] = s[i];
        i = i + 1;
    }
    assert(a@ =~= s@.subrange(0, 32));
    a
}

/// Copies `s[0..64]` into an array.
fn first_64(s: &[u8]) -> (a: [u8; 64])
    requires
        s@.len() >= 64,
    ensures
        a@ == s@.subrange(0, 64),
{
    let mut a: [u8; 64] = [0; 64];
    let mut i: usize = 0;
    while i < 64
        invariant
            0 <= i <= 64,
            s@.len() >= 64,
            forall|j: int| 0 <= j < i ==> a@[j] == s@[j],
        decreases 64 - i,
    {
        a[i] = s[i];
        i = i + 1;
    }
    assert(a@ =~= s@.subrange(0, 64));
    a
}

fn array_to_vec_32(a: &[u8; 32]) -> (v: Vec<u8>)
    ensures
        v@ == a@,
{
    let mut v: Vec<u8> = Vec::new();
    let mut i: usize = 0;
    while i < 32
        invariant
            0 <= i <= 32,
            v@ == a@.subrange(0, i as int),
        decreases 32 - i,
    {
        v.push(a[i]);
        assert(v@ =~= a@.subrange(0, i + 1));
        i = i + 1;
    }
    assert(a@.subrange(0, 32) =~= a@);
    v
}

fn array_to_vec_64(a: &[u8; 64]) -> (v: Vec<u8>)
    ensures
        v@ == a@,
{
    let mut v: Vec<u8> = Vec::new();
    let mut i: usize = 0;
    while i < 64
        invariant
            0 <= i <= 64,
            v@ == a@.subrange(0, i as int),
        decreases 64 - i,
    {
        v.push(a[i]);
        assert(v@ =~= a@.subrange(0, i + 1));
        i = i + 1;
    }
    assert(a@.subrange(0, 64) =~= a@);
    v
}

impl Keypair {
    /// The seed.
    pub closed spec fn view(&self) -> Seq<u8> {
        self.bytes@
    }

    /// A seed is 32 bytes long.
    pub proof fn lemma_seed_len(&self)
        ensures
            self.view().len() == 32,
    {
    }

    /// A keypair from a freshly drawn random seed.
    pub fn new() -> (r: Result<Keypair, KeypairError>)
        ensures
            match r {
                Ok(k) => k.view().len() == 32,
                Err(e) => e == KeypairError::SeedGenerationFailed,
            },
    {
        Self::from_seed_outcome(random_seed())
    }

    /// The keypair for the outcome of drawing a seed: the seed when there is
    /// one, and the error when drawing failed.
    pub fn from_seed_outcome(outcome: Option<[u8; 32]>) -> (r: Result<Keypair, KeypairError>)
        ensures
            match outcome {
                Some(seed) => r matches Ok(k) && k.view() == seed@,
                None => r == Err::<Keypair, KeypairError>(KeypairError::SeedGenerationFailed),
            },
    {
        match outcome {
            Some(seed) => Ok(Keypair { bytes: seed }),
            None => Err(KeypairError::SeedGenerationFailed),
        }
    }

    /// The signature of `message`. It verifies under this keypair (see
    /// `verify`) and under its public key (see `verify_with_key`).
    pub fn sign(&self, message: &[u8]) -> (sig: Vec<u8>)
        ensures
            sig@ == ed25519_signature(secret_of(self.view()), message@),
            sig@.len() == 64,
            ed25519_verifies_under_secret(secret_of(self.view()), message@, sig@),
            ed25519_verifies_under_key(ed25519_public_key(secret_of(self.view())), message@, sig@),
    {
        let secret = chacha20_fill_32(self.bytes);
        let s = ed25519_sign(&secret, message);
        array_to_vec_64(&s)
    }

    /// The 32 bytes of the Ed25519 public key; they decode as a key.
    pub fn public_key_bytes(&self) -> (pk: Vec<u8>)
        ensures
            pk@ == ed25519_public_key(secret_of(self.view())),
            pk@.len() == 32,
            ed25519_key_decodes(pk@),
    {
        let secret = chacha20_fill_32(self.bytes);
        let pk = ed25519_public_key_of(&secret);
        array_to_vec_32(&pk)
    }

    /// The seed.
    pub fn seed_bytes(&self) -> (s: Vec<u8>)
        ensures
            s@ == self.view(),
    {
        array_to_vec_32(&self.bytes)
    }

    /// The keypair whose seed is the first 32 bytes of `seed_bytes`.
    pub fn from_seed(seed_bytes: &[u8]) -> (k: Keypair)
        requires
            seed_bytes@.len() >= 32,
        ensures
            k.view() == seed_bytes@.subrange(0, 32),
    {
        Keypair { bytes: first_32(seed_bytes) }
    }

    /// Whether the first 64 bytes of `signature` are a valid signature of
    /// `message` under this keypair: the same answer as `verify_with_key`
    /// gives with this keypair's public key.
    pub fn verify(&self, message: &[u8], signature: &[u8]) -> (ok: bool)
        requires
            signature@.len() >= 64,
        ensures
            ok == ed25519_verifies_under_secret(
                secret_of(self.view()),
                message@,
                signature@.subrange(0, 64),
            ),
            ok == ed25519_verifies_under_key(
                ed25519_public_key(secret_of(self.view())),
                message@,
                signature@.subrange(0, 64),
            ),
    {
        let secret = chacha20_fill_32(self.bytes);
        let sig = first_64(signature);
        ed25519_verify_under_secret(&secret, message, &sig)
    }

    /// Whether the first 32 bytes of `pubkey_bytes` are an Ed25519 public key
    /// under which the first 64 bytes of `signature` are a valid signature of
    /// `message`. The signature is read only when the key decodes.
    pub fn verify_with_key(pubkey_bytes: &[u8], message: &[u8], signature: &[u8]) -> (ok: bool)
        requires
            pubkey_bytes@.len() >= 32,
            ed25519_key_decodes(pubkey_bytes@.subrange(0, 32)) ==> signature@.len() >= 64,
        ensures
            ok == (ed25519_key_decodes(pubkey_bytes@.subrange(0, 32)) && ed25519_verifies_under_key(
                pubkey_bytes@.subrange(0, 32),
                message@,
                signature@.subrange(0, 64),
            )),
    {
        let key = first_32(pubkey_bytes);
        if ed25519_key_is_valid(&key) {
            let sig = first_64(signature);
            ed25519_verify_under_key(&key, message, &sig)
        } else {
            false
        }
    }

    /// `verify_with_key` where its inputs allow it, `None` where they do not
    /// (a key shorter than 32 bytes, or a decodable key with a signature
    /// shorter than 64 bytes).
    pub fn try_verify_with_key(pubkey_bytes: &[u8], message: &[u8], signature: &[u8]) -> (r: Option<bool>)
        ensures
            r is None <== pubkey_bytes@.len() < 32,
            pubkey_bytes@.len() >= 32 ==> (r is None <==> (ed25519_key_decodes(
                pubkey_bytes@.subrange(0, 32),
            ) && signature@.len() < 64)),
            r matches Some(ok) ==> ok == (ed25519_key_decodes(pubkey_bytes@.subrange(0, 32))
                && ed25519_verifies_under_key(
                pubkey_bytes@.subrange(0, 32),
                message@,
                signature@.subrange(0, 64),
            )),
    {
        if pubkey_bytes.len() < 32 {
            return None;
        }
        let key = first_32(pubkey_bytes);
        if ed25519_key_is_valid(&key) && signature.len() < 64 {
            return None;
        }
        Some(Self::verify_with_key(pubkey_bytes, message, signature))
    }
}

/// A keypair made from the seed that another keypair hands out is that same
/// keypair: `from_seed(k.seed_bytes())` has the seed of `k`.
pub proof fn law_seed_round_trip(k: &Keypair)
    ensures
        k.view().len() == 32,
        k.view().subrange(0, 32) == k.view(),
{
    k.lemma_seed_len();
    assert(k.view().subrange(0, 32) =~= k.view());
}

} // verus!
