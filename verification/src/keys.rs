//! Candidate generation: one keypair per invocation, either straight from
//! fresh random bytes or derived from a freshly generated mnemonic phrase.
//! The cryptographic primitives (random source, mnemonic encoding, seed
//! stretching, the ed25519 keypair and its Base58 rendering) come from
//! outside crates behind trusted wrappers; everything around them is
//! verified.

use vstd::prelude::*;
use vstd::slice::{slice_subrange, slice_to_vec};

use crate::config::{mode_valid, GenerationMode};
use crate::pattern::all_base58;

verus! {

/// One freshly generated keypair: its public address as rendered in Base58,
/// the raw 64-byte keypair encoding (secret half first, public half
/// second), and the recovery phrase when the keypair was derived from one.
pub struct Candidate {
    pub public_address: String,
    pub private_key_bytes: Vec<u8>,
    pub mnemonic_phrase: Option<String>,
}

/// The Base58 (Bitcoin alphabet) rendering of a byte string, a function of
/// the bytes alone.
pub uninterp spec fn base58_of(bytes: Seq<u8>) -> Seq<char>;

/// The mnemonic phrase that encodes the given entropy bytes under the fixed
/// English wordlist, a function of the entropy alone.
pub uninterp spec fn phrase_of(entropy: Seq<u8>) -> Seq<char>;

/// The 64-byte seed stretched from the phrase of the given entropy bytes
/// with an empty passphrase, a function of the entropy alone.
pub uninterp spec fn seed_of(entropy: Seq<u8>) -> Seq<u8>;

/// The 64-byte ed25519 keypair encoding grown from a 32-byte secret seed, a
/// function of the seed alone.
pub uninterp spec fn keypair_bytes_of(seed: Seq<u8>) -> Seq<u8>;

/// How many entropy bytes feed a phrase of the given word count: 12 words
/// encode 16 bytes, 24 words encode 32.
pub open spec fn entropy_len_for(word_count: u32) -> nat {
    if word_count == 12 {
        16nat
    } else {
        32nat
    }
}

/// The candidate's phrase and keypair both stem from the entropy bytes `e`:
/// the phrase encodes `e`, and the keypair is grown from the first 32 bytes
/// of the seed stretched from that phrase.
pub open spec fn derived_from_entropy(c: Candidate, e: Seq<u8>) -> bool {
    &&& c.mnemonic_phrase matches Some(ph) && ph@ == phrase_of(e)
    &&& c.private_key_bytes@ == keypair_bytes_of(seed_of(e).subrange(0, 32))
}

/// Some entropy of the right size for the word count explains the
/// candidate's phrase and keypair.
pub open spec fn mnemonic_derived(c: Candidate, word_count: u32) -> bool {
    exists|e: Seq<u8>| e.len() == entropy_len_for(word_count) && derived_from_entropy(c, e)
}

/// A well-formed candidate for the given mode: 64 keypair bytes, an address
/// that is the Base58 rendering of the public half (bytes 32 to 64), drawn
/// from the Base58 alphabet; a phrase exactly in mnemonic mode, and then one
/// that derivation from fresh entropy explains.
pub open spec fn candidate_wf(c: Candidate, mode: GenerationMode) -> bool {
    &&& c.private_key_bytes@.len() == 64
    &&& c.public_address@ == base58_of(c.private_key_bytes@.subrange(32, 64))
    &&& all_base58(c.public_address@)
    &&& match mode {
        GenerationMode::Mnemonic(n) => mnemonic_derived(c, n),
        _ => c.mnemonic_phrase is None,
    }
}

/// Relies on rand::thread_rng and RngCore::fill_bytes: fills a buffer of
/// the asked-for size from a cryptographically suitable random source.
/// Nothing can be promised of the bytes themselves.
#[verifier::external_body]
fn random_entropy(n: usize) -> (r: Vec<u8>)
    ensures
        r@.len() == n,
{
    let mut rng = rand::thread_rng();
    let mut bytes = vec![0u8; n];
    rand::RngCore::fill_bytes(&mut rng, &mut bytes);
    bytes
}

/// Relies on bip39::Mnemonic: from_entropy_in (which accepts 16 or 32
/// entropy bytes), its Display rendering (the words joined by single
/// spaces), and to_seed with an empty passphrase (a 64-byte seed). Phrase
/// and seed are functions of the entropy alone.
#[verifier::external_body]
fn derive_phrase_and_seed(entropy: &Vec<u8>) -> (r: (String, Vec<u8>))
    requires
        entropy@.len() == 16 || entropy@.len() == 32,
    ensures
        r.0@ == phrase_of(entropy@),
        r.1@ == seed_of(entropy@),
        r.1@.len() == 64,
{
    let m = bip39::Mnemonic::from_entropy_in(bip39::Language::English, entropy.as_slice())
        .unwrap();
    let seed = m.to_seed("");
    (m.to_string(), seed.to_vec())
}

/// Relies on solana_sdk's Keypair::new (a fresh random ed25519 keypair),
/// Keypair::to_bytes (secret half then public half, 64 bytes), and
/// Signer::pubkey with the address's Display rendering (the Base58 encoding
/// of the 32 public-key bytes, drawn from the Base58 alphabet). The keypair
/// is random; only the shape of the result is promised.
#[verifier::external_body]
fn fresh_keypair() -> (r: (String, Vec<u8>))
    ensures
        r.1@.len() == 64,
        r.0@ == base58_of(r.1@.subrange(32, 64)),
        all_base58(r.0@),
{
    let kp = solana_sdk::signature::Keypair::new();
    let address = solana_sdk::signature::Signer::pubkey(&kp).to_string();
    (address, kp.to_bytes().to_vec())
}

/// Relies on solana_sdk's SeedDerivable::from_seed (which succeeds on any
/// seed of at least 32 bytes and grows the keypair from the first 32 alone),
/// Keypair::to_bytes, and the address's Base58 Display rendering, as in
/// `fresh_keypair`. The keypair is a function of the seed alone.
#[verifier::external_body]
fn keypair_from_seed32(seed: &Vec<u8>) -> (r: (String, Vec<u8>))
    requires
        seed@.len() == 32,
    ensures
        r.1@ == keypair_bytes_of(seed@),
        r.1@.len() == 64,
        r.0@ == base58_of(r.1@.subrange(32, 64)),
        all_base58(r.0@),
{
    let kp = <solana_sdk::signature::Keypair as solana_sdk::signature::SeedDerivable>::from_seed(
        seed.as_slice(),
    ).unwrap();
    let address = solana_sdk::signature::Signer::pubkey(&kp).to_string();
    (address, kp.to_bytes().to_vec())
}

/// Relies on bs58::encode with its default (Bitcoin) alphabet: the Base58
/// rendering of the bytes, drawn from the Base58 alphabet.
#[verifier::external_body]
fn bs58_encode(bytes: &Vec<u8>) -> (r: String)
    ensures
        r@ == base58_of(bytes@),
        all_base58(r@),
{
    bs58::encode(bytes.as_slice()).into_string()
}

/// Produces one candidate keypair for the given mode, drawing fresh entropy
/// on every call. In mnemonic mode the phrase, the seed and the keypair all
/// stem deterministically from the drawn entropy.
pub fn generate(mode: GenerationMode) -> (c: Candidate)
    requires
        mode_valid(mode),
    ensures
        candidate_wf(c, mode),
{
    match mode {
        GenerationMode::Mnemonic(wc) => {
            let n: usize = if wc == 12 {
                16
            } else {
                32
            };
            let entropy = random_entropy(n);
            let (phrase, seed) = derive_phrase_and_seed(&entropy);
            let seed32 = slice_to_vec(slice_subrange(seed.as_slice(), 0, 32));
            let (address, key_bytes) = keypair_from_seed32(&seed32);
            let c = Candidate {
                public_address: address,
                private_key_bytes: key_bytes,
                mnemonic_phrase: Some(phrase),
            };
            proof {
                assert(entropy@.len() == entropy_len_for(wc));
                assert(derived_from_entropy(c, entropy@));
                assert(mnemonic_derived(c, wc));
            }
            c
        },
        _ => {
            let (address, key_bytes) = fresh_keypair();
            Candidate {
                public_address: address,
                private_key_bytes: key_bytes,
                mnemonic_phrase: None,
            }
        },
    }
}

impl Candidate {
    /// The Base58 rendering of the full 64-byte keypair encoding, the form
    /// in which the private key is reported to the user.
    pub fn private_key_base58(&self) -> (r: String)
        ensures
            r@ == base58_of(self.private_key_bytes@),
    {
        bs58_encode(&self.private_key_bytes)
    }
}

/// Law: mnemonic derivation is deterministic. The phrase, the stretched
/// seed and the keypair grown from identical entropy bytes are identical —
/// they are functions of the entropy alone.
pub proof fn lemma_derivation_deterministic(e1: Seq<u8>, e2: Seq<u8>)
    requires
        e1 == e2,
    ensures
        phrase_of(e1) == phrase_of(e2),
        seed_of(e1) == seed_of(e2),
        keypair_bytes_of(seed_of(e1).subrange(0, 32)) == keypair_bytes_of(
            seed_of(e2).subrange(0, 32),
        ),
{
}

} // verus!
