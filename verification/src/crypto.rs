//! The cipher core: passphrase to seed, seed to keystream, keystream XOR
//! content.
//!
//! Encryption and decryption are the same operation: XOR-ing with the
//! keystream a second time undoes the first application
//! ([`lemma_round_trip`]).  The construction uses no nonce and no salt, so
//! the keystream depends on the passphrase and the length alone; this keeps
//! files byte-compatible between runs but is deliberately not semantically
//! secure against multi-message analysis.

use vstd::prelude::*;

use rand_chacha::rand_core::{Rng, SeedableRng};
use sha2::Digest;

verus! {

/// The 32-byte seed derived from a passphrase: the SHA-256 digest of the
/// passphrase's UTF-8 bytes.  A pure function of the passphrase, identical
/// in every process.
pub uninterp spec fn seed_of(key: Seq<char>) -> Seq<u8>;

/// The first `n` bytes of the deterministic stream that an 8-round ChaCha
/// generator, seeded directly with the 32 seed bytes and no nonce, produces
/// from block zero on.  A pure function of the seed and the length.
pub uninterp spec fn keystream_of(seed: Seq<u8>, n: nat) -> Seq<u8>;

/// Relies on `sha2::Sha256::digest`: the digest is 32 bytes and depends on
/// the input bytes alone, so the result is named by [`seed_of`].
#[verifier::external_body]
pub fn key_to_seed(key: &str) -> (r: [u8; 32])
    ensures
        r@ == seed_of(key@),
{
    let hash = sha2::Sha256::digest(key.as_bytes());
    let mut seed = [0u8; 32];
    seed.copy_from_slice(hash.as_slice());
    seed
}

/// Relies on `rand_chacha::ChaCha8Rng`: `from_seed` starts the stream at
/// block zero with a zero stream identifier, and `fill_bytes` fills the
/// whole buffer with the next stream bytes, so a fresh generator yields the
/// stream's first `n` bytes, named by [`keystream_of`].
#[verifier::external_body]
pub(crate) fn keystream(seed: &[u8; 32], n: usize) -> (r: Vec<u8>)
    ensures
        r@ == keystream_of(seed@, n as nat),
        r@.len() == n,
{
    let mut rng = rand_chacha::ChaCha8Rng::from_seed(*seed);
    let mut buf = vec![0u8; n];
    rng.fill_bytes(&mut buf);
    buf
}

/// Bytewise XOR of `content` with a keystream of the same length.
pub open spec fn xor_with(content: Seq<u8>, stream: Seq<u8>) -> Seq<u8> {
    Seq::new(content.len(), |i: int| content[i] ^ stream[i])
}

/// What the cipher makes of `content` under passphrase `key`: content
/// XOR-ed with the keystream that the passphrase's seed expands to.
/// Decryption is the same function, applied to the ciphertext.
pub open spec fn encrypted(content: Seq<u8>, key: Seq<char>) -> Seq<u8> {
    xor_with(content, keystream_of(seed_of(key), content.len()))
}

/// XOR two equally long byte strings.
fn xor_bytes(content: &[u8], stream: &[u8]) -> (r: Vec<u8>)
    requires
        content@.len() == stream@.len(),
    ensures
        r@ == xor_with(content@, stream@),
{
    let mut out: Vec<u8> = Vec::new();
    let n = content.len();
    for i in 0..n
        invariant
            n == content@.len() == stream@.len(),
            out@.len() == i,
            forall|j: int| 0 <= j < i ==> out@[j] == content@[j] ^ stream@[j],
    {
        out.push(content[i] ^ stream[i]);
    }
    assert(out@ =~= xor_with(content@, stream@));
    out
}

/// Encrypt `content` under the passphrase `key`: derive the seed, expand a
/// keystream of the content's length, and XOR.
pub fn encrypt_bytes(key: &str, content: &[u8]) -> (r: Vec<u8>)
    ensures
        r@ == encrypted(content@, key@),
        r@.len() == content@.len(),
{
    let seed = key_to_seed(key);
    let stream = keystream(&seed, content.len());
    xor_bytes(content, stream.as_slice())
}

/// Decrypt `ciphertext` under the passphrase `key`.  The cipher is
/// self-inverse, so this is the same transform as [`encrypt_bytes`]; a
/// wrong passphrase is not detected here, it merely yields unrelated bytes.
pub fn decrypt_bytes(key: &str, ciphertext: &[u8]) -> (r: Vec<u8>)
    ensures
        r@ == encrypted(ciphertext@, key@),
        r@.len() == ciphertext@.len(),
{
    encrypt_bytes(key, ciphertext)
}

/// The ciphertext is exactly as long as the content, for every content and
/// passphrase.
pub proof fn lemma_length_preservation(content: Seq<u8>, key: Seq<char>)
    ensures
        encrypted(content, key).len() == content.len(),
{
}

/// Determinism: the ciphertext depends on the content and the passphrase
/// alone.  There is no per-instance randomness, nonce or hidden state, so
/// encrypting the same content under the same passphrase a second time,
/// from a fresh generator, yields the identical ciphertext.
pub proof fn lemma_determinism(
    content1: Seq<u8>,
    content2: Seq<u8>,
    key1: Seq<char>,
    key2: Seq<char>,
)
    requires
        content1 == content2,
        key1 == key2,
    ensures
        encrypted(content1, key1) == encrypted(content2, key2),
{
}

/// Round trip: decrypting an encryption under the same passphrase returns
/// the content unchanged, for every content and passphrase, the empty ones
/// included.
pub proof fn lemma_round_trip(content: Seq<u8>, key: Seq<char>)
    ensures
        encrypted(encrypted(content, key), key) == content,
{
    let stream = keystream_of(seed_of(key), content.len());
    assert forall|i: int| 0 <= i < content.len() implies encrypted(
        encrypted(content, key),
        key,
    )[i] == content[i] by {
        let c = content[i];
        let k = stream[i];
        assert((c ^ k) ^ k == c) by (bit_vector);
    }
    assert(encrypted(encrypted(content, key), key) =~= content);
}

/// Key sensitivity, the exact part: decrypting under a second passphrase
/// returns the content exactly when the two keystreams agree on every
/// position within the content's length.  Whether two passphrases' streams
/// ever agree is a question about the hash and the generator that nothing
/// here decides; with a sound pair they collide at most with vanishing
/// probability.
pub proof fn lemma_key_sensitivity(content: Seq<u8>, key1: Seq<char>, key2: Seq<char>)
    ensures
        (encrypted(encrypted(content, key1), key2) == content) <==> (forall|i: int|
            0 <= i < content.len() ==> keystream_of(seed_of(key1), content.len())[i]
                == keystream_of(seed_of(key2), content.len())[i]),
{
    let n = content.len();
    let s1 = keystream_of(seed_of(key1), n);
    let s2 = keystream_of(seed_of(key2), n);
    let twice = encrypted(encrypted(content, key1), key2);
    if forall|i: int| 0 <= i < n ==> s1[i] == s2[i] {
        assert forall|i: int| 0 <= i < n implies twice[i] == content[i] by {
            let c = content[i];
            let a = s1[i];
            let b = s2[i];
            assert(a == b ==> (c ^ a) ^ b == c) by (bit_vector);
        }
        assert(twice =~= content);
    } else {
        let j = choose|j: int| 0 <= j < n && s1[j] != s2[j];
        let c = content[j];
        let a = s1[j];
        let b = s2[j];
        assert(a != b ==> (c ^ a) ^ b != c) by (bit_vector);
        assert(twice[j] != content[j]);
    }
}

} // verus!
