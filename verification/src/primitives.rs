//! The cryptographic primitives: X25519 key agreement from `x25519-dalek`,
//! ChaCha20-Poly1305 from `chacha20poly1305` and the operating system's
//! random numbers through `rand_core`.
use chacha20poly1305::aead::{Aead, KeyInit};
use chacha20poly1305::{ChaCha20Poly1305, Key, Nonce};
use rand_core::{OsRng, TryRngCore};
use vstd::prelude::*;
use x25519_dalek::{PublicKey, StaticSecret};

verus! {

/// The X25519 public key (`PublicKey::from(&StaticSecret::from(secret))`)
/// of a 32-byte secret.
pub uninterp spec fn x25519_public(secret: Seq<u8>) -> Seq<u8>;

/// The X25519 shared secret (`StaticSecret::diffie_hellman`) of a 32-byte
/// secret and a 32-byte public key.
pub uninterp spec fn x25519_shared(secret: Seq<u8>, public: Seq<u8>) -> Seq<u8>;

/// What `ChaCha20Poly1305::encrypt` returns for a key, a nonce and a plaintext
/// (with no associated data): the ciphertext followed by the 16-byte tag.
pub uninterp spec fn chacha20poly1305_sealed(key: Seq<u8>, nonce: Seq<u8>, plaintext: Seq<u8>) -> Seq<u8>;

/// What `ChaCha20Poly1305::decrypt` returns for a key, a nonce and a
/// ciphertext: the plaintext, or `None` where the tag does not verify.
pub uninterp spec fn chacha20poly1305_opened(key: Seq<u8>, nonce: Seq<u8>, ciphertext: Seq<u8>) -> Option<Seq<u8>>;

/// The largest plaintext `ChaCha20Poly1305::encrypt` accepts, in bytes: it
/// refuses a buffer of `u32::MAX` 64-byte blocks or more.
pub open spec fn chacha_plaintext_limit() -> int {
    64 * 4294967295 - 1
}

/// Calls `StaticSecret::random` of `x25519-dalek` and returns its bytes.
///
/// Trusted: 32 bytes come back. They are random, so nothing else is stated;
/// the call panics if the operating system's random source fails.
#[verifier::external_body]
pub(crate) fn random_secret() -> (secret: Vec<u8>)
    ensures
        secret@.len() == 32,
{
    StaticSecret::random().to_bytes().to_vec()
}

/// Calls `PublicKey::from(&StaticSecret::from(..))` of `x25519-dalek`.
///
/// Trusted: the result is the named public key of the secret, 32 bytes long.
#[verifier::external_body]
pub(crate) fn public_key_for(secret: &[u8]) -> (public: Vec<u8>)
    requires
        secret@.len() == 32,
    ensures
        public@ == x25519_public(secret@),
        public@.len() == 32,
{
    let bytes: [u8; 32] = secret.try_into().unwrap();
    PublicKey::from(&StaticSecret::from(bytes)).to_bytes().to_vec()
}

/// Calls `StaticSecret::diffie_hellman` of `x25519-dalek`.
///
/// Trusted: the result is the named shared secret, 32 bytes long, and it is
/// the one the other side computes: when the public key belongs to a secret
/// `other`, `other` with this secret's public key gives the same bytes (the
/// agreement that the crate's documentation shows).
#[verifier::external_body]
pub(crate) fn diffie_hellman(secret: &[u8], public: &[u8]) -> (shared: Vec<u8>)
    requires
        secret@.len() == 32,
        public@.len() == 32,
    ensures
        shared@ == x25519_shared(secret@, public@),
        shared@.len() == 32,
        forall|other: Seq<u8>|
            #![trigger x25519_public(other)]
            other.len() == 32 && public@ == x25519_public(other) ==> shared@ == x25519_shared(
                other,
                x25519_public(secret@),
            ),
{
    let mine: [u8; 32] = secret.try_into().unwrap();
    let theirs: [u8; 32] = public.try_into().unwrap();
    StaticSecret::from(mine).diffie_hellman(&PublicKey::from(theirs)).as_bytes().to_vec()
}

/// Calls `OsRng.try_fill_bytes` of `rand_core` on 12 bytes.
///
/// Trusted: 12 bytes come back. They are random, so nothing else is stated;
/// the call panics if the operating system's random source fails.
#[verifier::external_body]
pub(crate) fn random_nonce() -> (nonce: Vec<u8>)
    ensures
        nonce@.len() == 12,
{
    let mut nonce = [0u8; 12];
    OsRng.try_fill_bytes(&mut nonce).expect("OS RNG failed");
    nonce.to_vec()
}

/// Calls `ChaCha20Poly1305::encrypt` of `chacha20poly1305`.
///
/// Trusted: the result is the named ciphertext, 16 bytes longer than the
/// plaintext (the tag), and `decrypt` with the same key and nonce gives the
/// plaintext back. `encrypt` fails only above the length limit, which
/// `requires` rules out.
#[verifier::external_body]
pub(crate) fn chacha_seal(key: &[u8], nonce: &[u8], plaintext: &[u8]) -> (ciphertext: Vec<u8>)
    requires
        key@.len() == 32,
        nonce@.len() == 12,
        plaintext@.len() <= chacha_plaintext_limit(),
    ensures
        ciphertext@ == chacha20poly1305_sealed(key@, nonce@, plaintext@),
        ciphertext@.len() == plaintext@.len() + 16,
        chacha20poly1305_opened(key@, nonce@, ciphertext@) == Some(plaintext@),
{
    ChaCha20Poly1305::new(Key::from_slice(key)).encrypt(Nonce::from_slice(nonce), plaintext).unwrap()
}

/// Calls `ChaCha20Poly1305::decrypt` of `chacha20poly1305`.
///
/// Trusted: the result is the named opening of the ciphertext, and a
/// ciphertext shorter than the 16-byte tag does not open (`decrypt_in_place`
/// refuses it before checking anything).
#[verifier::external_body]
pub(crate) fn chacha_open(key: &[u8], nonce: &[u8], ciphertext: &[u8]) -> (plaintext: Option<Vec<u8>>)
    requires
        key@.len() == 32,
        nonce@.len() == 12,
    ensures
        plaintext matches Some(p) ==> chacha20poly1305_opened(key@, nonce@, ciphertext@) == Some(p@),
        plaintext is None ==> chacha20poly1305_opened(key@, nonce@, ciphertext@) is None,
        ciphertext@.len() < 16 ==> plaintext is None,
{
    ChaCha20Poly1305::new(Key::from_slice(key)).decrypt(Nonce::from_slice(nonce), ciphertext).ok()
}

} // verus!
