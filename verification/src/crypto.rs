//! Trusted wrappers around the cryptographic primitives the core consumes:
//! Ed25519 signatures, X25519 Diffie-Hellman, the BLAKE2b-512 hash and the
//! ChaCha20-Poly1305 AEAD. Each outside result that takes pages to state is
//! given a name (an uninterpreted spec function); the wrappers' contracts
//! relate the calls to those names and state only what the crates' own
//! sources and documentation show.

use blake2::Digest;
use chacha20poly1305::KeyInit;
use vstd::prelude::*;

verus! {

/// The Ed25519 verifying key determined by a 32-byte signing key.
pub uninterp spec fn ed_pub_of(sk: Seq<u8>) -> Seq<u8>;

/// The (deterministic) Ed25519 signature of a message under a signing key.
pub uninterp spec fn ed_sign_of(sk: Seq<u8>, msg: Seq<u8>) -> Seq<u8>;

/// Whether Ed25519 verification accepts `sig` over `msg` under the
/// verifying-key bytes `vk` (false when `vk` does not decode).
pub uninterp spec fn ed_verifies(vk: Seq<u8>, msg: Seq<u8>, sig: Seq<u8>) -> bool;

/// Whether 32 bytes decode as a valid Ed25519 verifying key.
pub uninterp spec fn ed_point_decodes(vk: Seq<u8>) -> bool;

/// The X25519 secret scalar expanded from an Ed25519 signing key.
pub uninterp spec fn ed_scalar_of(sk: Seq<u8>) -> Seq<u8>;

/// The X25519 (Montgomery) form of an Ed25519 verifying key.
pub uninterp spec fn montgomery_of(vk: Seq<u8>) -> Seq<u8>;

/// The raw X25519 function on a 32-byte scalar and a 32-byte point.
pub uninterp spec fn x25519_shared(sec: Seq<u8>, peer: Seq<u8>) -> Seq<u8>;

/// The BLAKE2b-512 digest of a byte string.
pub uninterp spec fn blake2b_of(input: Seq<u8>) -> Seq<u8>;

/// The ChaCha20-Poly1305 ciphertext (tag appended) of a plaintext under a
/// 32-byte key, a 12-byte nonce and associated data.
pub uninterp spec fn aead_seal(key: Seq<u8>, nonce: Seq<u8>, ad: Seq<u8>, pt: Seq<u8>) -> Seq<u8>;

/// The X25519 basepoint, `9` followed by 31 zero bytes (RFC 7748).
pub open spec fn spec_basepoint() -> Seq<u8> {
    Seq::new(32, |i: int| if i == 0 { 9u8 } else { 0u8 })
}

/// The X25519 public key of a secret scalar: X25519 against the basepoint.
pub open spec fn x25519_pub_of(sec: Seq<u8>) -> Seq<u8> {
    x25519_shared(sec, spec_basepoint())
}

/// Relies on `ed25519_dalek::SigningKey::{from_bytes, verifying_key}`: the
/// verifying key of a signing key, in its canonical 32-byte encoding, which
/// `VerifyingKey::from_bytes` accepts back.
#[verifier::external_body]
pub(crate) fn ed25519_public(sk: &[u8]) -> (r: Vec<u8>)
    requires
        sk@.len() == 32,
    ensures
        r@ == ed_pub_of(sk@),
        r@.len() == 32,
        ed_point_decodes(r@),
{
    let mut k = [0u8; 32];
    k.copy_from_slice(sk);
    ed25519_dalek::SigningKey::from_bytes(&k).verifying_key().to_bytes().to_vec()
}

/// Relies on `ed25519_dalek::SigningKey` through `signature::Signer::sign`:
/// Ed25519 signing is deterministic (RFC 8032), and verification under the
/// matching verifying key accepts a genuine signature.
#[verifier::external_body]
pub(crate) fn ed25519_sign(sk: &[u8], msg: &[u8]) -> (r: Vec<u8>)
    requires
        sk@.len() == 32,
    ensures
        r@ == ed_sign_of(sk@, msg@),
        r@.len() == 64,
        ed_verifies(ed_pub_of(sk@), msg@, r@),
{
    let mut k = [0u8; 32];
    k.copy_from_slice(sk);
    let key = ed25519_dalek::SigningKey::from_bytes(&k);
    ed25519_dalek::Signer::sign(&key, msg).to_bytes().to_vec()
}

/// Relies on `ed25519_dalek::VerifyingKey::from_bytes` and
/// `signature::Verifier::verify`: whether the signature verifies over the
/// message under the key, a deterministic verdict on the bytes alone.
#[verifier::external_body]
pub(crate) fn ed25519_verify(vk: &[u8], msg: &[u8], sig: &[u8]) -> (r: bool)
    requires
        vk@.len() == 32,
        sig@.len() == 64,
    ensures
        r == ed_verifies(vk@, msg@, sig@),
        r ==> ed_point_decodes(vk@),
{
    let mut k = [0u8; 32];
    k.copy_from_slice(vk);
    let mut s = [0u8; 64];
    s.copy_from_slice(sig);
    match ed25519_dalek::VerifyingKey::from_bytes(&k) {
        Ok(key) => {
            let signature = ed25519_dalek::Signature::from_bytes(&s);
            ed25519_dalek::Verifier::verify(&key, msg, &signature).is_ok()
        },
        Err(_) => false,
    }
}

/// Relies on `ed25519_dalek::SigningKey::to_scalar_bytes`, whose
/// documentation states that the result is a valid X25519 secret key for the
/// X25519 public key `verifying_key().to_montgomery()`.
#[verifier::external_body]
pub fn ed25519_to_x25519_secret(sk: &[u8]) -> (r: Vec<u8>)
    requires
        sk@.len() == 32,
    ensures
        r@ == ed_scalar_of(sk@),
        r@.len() == 32,
        x25519_pub_of(r@) == montgomery_of(ed_pub_of(sk@)),
{
    let mut k = [0u8; 32];
    k.copy_from_slice(sk);
    ed25519_dalek::SigningKey::from_bytes(&k).to_scalar_bytes().to_vec()
}

/// Relies on `ed25519_dalek::VerifyingKey::{from_bytes, to_montgomery}`: the
/// deterministic projection of an Ed25519 verifying key to its X25519
/// (Montgomery) form; `None` exactly when the bytes do not decode as a key.
#[verifier::external_body]
pub(crate) fn ed25519_to_x25519_public(vk: &[u8]) -> (r: Option<Vec<u8>>)
    requires
        vk@.len() == 32,
    ensures
        r is Some <==> ed_point_decodes(vk@),
        r is Some ==> r.unwrap()@ == montgomery_of(vk@) && r.unwrap()@.len() == 32,
{
    let mut k = [0u8; 32];
    k.copy_from_slice(vk);
    match ed25519_dalek::VerifyingKey::from_bytes(&k) {
        Ok(key) => Some(key.to_montgomery().to_bytes().to_vec()),
        Err(_) => None,
    }
}

/// Relies on `x25519_dalek::x25519`: the raw RFC 7748 X25519 function on a
/// 32-byte scalar and a 32-byte point. The second clause is the
/// Diffie-Hellman property of the curve, `X25519(a, X25519(b, 9)) ==
/// X25519(b, X25519(a, 9))`, stated at this call's arguments.
#[verifier::external_body]
pub(crate) fn x25519_dh(sec: &[u8], peer: &[u8]) -> (r: Vec<u8>)
    requires
        sec@.len() == 32,
        peer@.len() == 32,
    ensures
        r@ == x25519_shared(sec@, peer@),
        r@.len() == 32,
        forall|b: Seq<u8>|
            peer@ == x25519_pub_of(b) ==> r@ == x25519_shared(b, x25519_pub_of(sec@)),
{
    let mut s = [0u8; 32];
    s.copy_from_slice(sec);
    let mut p = [0u8; 32];
    p.copy_from_slice(peer);
    x25519_dalek::x25519(s, p).to_vec()
}

/// Relies on `x25519_dalek::{x25519, X25519_BASEPOINT_BYTES}`: the X25519
/// public key of a secret scalar is X25519 of the scalar and the basepoint.
#[verifier::external_body]
pub fn x25519_public(sec: &[u8]) -> (r: Vec<u8>)
    requires
        sec@.len() == 32,
    ensures
        r@ == x25519_pub_of(sec@),
        r@.len() == 32,
{
    let mut s = [0u8; 32];
    s.copy_from_slice(sec);
    x25519_dalek::x25519(s, x25519_dalek::X25519_BASEPOINT_BYTES).to_vec()
}

/// Relies on `blake2::Blake2b512` through the `digest::Digest` trait: the
/// BLAKE2b-512 digest, 64 bytes, handed back split into its two halves.
#[verifier::external_body]
pub(crate) fn blake2b512_split(input: &[u8]) -> (r: (Vec<u8>, Vec<u8>))
    ensures
        r.0@.len() == 32,
        r.1@.len() == 32,
        r.0@ + r.1@ == blake2b_of(input@),
{
    let mut hasher = blake2::Blake2b512::new();
    blake2::Digest::update(&mut hasher, input);
    let digest = blake2::Digest::finalize(hasher);
    (digest[0..32].to_vec(), digest[32..64].to_vec())
}

/// Relies on `chacha20poly1305::ChaCha20Poly1305` through `aead::Aead::
/// encrypt`: deterministic authenticated encryption of the plaintext under
/// key, nonce and associated data, the 16-byte tag appended. `None` only on
/// the crate's own length-limit error.
#[verifier::external_body]
pub(crate) fn aead_encrypt(key: &[u8], nonce: &[u8], ad: &[u8], pt: &[u8]) -> (r: Option<Vec<u8>>)
    requires
        key@.len() == 32,
        nonce@.len() == 12,
    ensures
        r is Some ==> r.unwrap()@ == aead_seal(key@, nonce@, ad@, pt@),
{
    let mut k = [0u8; 32];
    k.copy_from_slice(key);
    let mut n = [0u8; 12];
    n.copy_from_slice(nonce);
    let cipher = chacha20poly1305::ChaCha20Poly1305::new(&chacha20poly1305::Key::from(k));
    let payload = chacha20poly1305::aead::Payload { msg: pt, aad: ad };
    chacha20poly1305::aead::Aead::encrypt(&cipher, &chacha20poly1305::Nonce::from(n), payload).ok()
}

/// Relies on `chacha20poly1305::ChaCha20Poly1305` through `aead::Aead::
/// decrypt`: a ciphertext produced by the matching `encrypt` opens to its
/// plaintext; a successful open returns the plaintext whose encryption under
/// the same key, nonce and associated data is this ciphertext.
#[verifier::external_body]
pub(crate) fn aead_decrypt(key: &[u8], nonce: &[u8], ad: &[u8], ct: &[u8]) -> (r: Option<Vec<u8>>)
    requires
        key@.len() == 32,
        nonce@.len() == 12,
    ensures
        r is Some ==> ct@ == aead_seal(key@, nonce@, ad@, r.unwrap()@),
        forall|pt: Seq<u8>|
            ct@ == aead_seal(key@, nonce@, ad@, pt) ==> r is Some && r.unwrap()@ == pt,
{
    let mut k = [0u8; 32];
    k.copy_from_slice(key);
    let mut n = [0u8; 12];
    n.copy_from_slice(nonce);
    let cipher = chacha20poly1305::ChaCha20Poly1305::new(&chacha20poly1305::Key::from(k));
    let payload = chacha20poly1305::aead::Payload { msg: ct, aad: ad };
    chacha20poly1305::aead::Aead::decrypt(&cipher, &chacha20poly1305::Nonce::from(n), payload).ok()
}

/// Relies on `getrandom::fill`: 32 fresh bytes from the operating system's
/// entropy source. Nothing is assumed of the value; `None` on an entropy
/// failure.
#[verifier::external_body]
pub(crate) fn random_bytes32() -> (r: Option<Vec<u8>>)
    ensures
        r is Some ==> r.unwrap()@.len() == 32,
{
    let mut buf = [0u8; 32];
    match getrandom::fill(&mut buf) {
        Ok(()) => Some(buf.to_vec()),
        Err(_) => None,
    }
}

} // verus!
