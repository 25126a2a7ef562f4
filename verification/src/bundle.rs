//! Wire shapes of the protocol — identity keys, signed prekeys, one-time
//! prekey batches, prekey bundles and initial messages — and the signing
//! rule over prekey batches: the signed input is the concatenation of the
//! 32-byte publics in declared order, for a single prekey and for a batch
//! alike.

use crate::crypto::{ed25519_sign, ed25519_verify, ed_pub_of, ed_sign_of, ed_verifies};
use crate::errors::ProtocolError;
use vstd::prelude::*;

verus! {

/// A medium-lived X25519 public key together with its Ed25519 signature
/// under the owner's identity key.
#[derive(Clone, Debug, PartialEq, Eq)]
pub struct SignedPreKey {
    pub pre_key: Vec<u8>,
    pub signature: Vec<u8>,
}

/// The mathematical shape of a [`SignedPreKey`].
pub ghost struct SignedPreKeyView {
    pub pre_key: Seq<u8>,
    pub signature: Seq<u8>,
}

impl View for SignedPreKey {
    type V = SignedPreKeyView;

    open spec fn view(&self) -> SignedPreKeyView {
        SignedPreKeyView { pre_key: self.pre_key@, signature: self.signature@ }
    }
}

impl SignedPreKeyView {
    /// A signed prekey is well formed when its public is 32 bytes and its
    /// signature 64.
    pub open spec fn wf(self) -> bool {
        self.pre_key.len() == 32 && self.signature.len() == 64
    }
}

/// A batch of one-time X25519 publics under a single aggregate signature.
#[derive(Clone, Debug, PartialEq, Eq)]
pub struct SignedPreKeys {
    pub pre_keys: Vec<Vec<u8>>,
    pub signature: Vec<u8>,
}

/// The mathematical shape of a [`SignedPreKeys`] batch.
pub ghost struct SignedPreKeysView {
    pub pre_keys: Seq<Seq<u8>>,
    pub signature: Seq<u8>,
}

impl View for SignedPreKeys {
    type V = SignedPreKeysView;

    open spec fn view(&self) -> SignedPreKeysView {
        SignedPreKeysView { pre_keys: keys_view(self.pre_keys), signature: self.signature@ }
    }
}

impl SignedPreKeysView {
    pub open spec fn wf(self) -> bool {
        all_keys32(self.pre_keys) && self.signature.len() == 64
    }
}

/// What the server hands a sender: the recipient's identity key, current
/// signed prekey, and one one-time prekey if any was left in the pool.
#[derive(Clone, Debug, PartialEq, Eq)]
pub struct PreKeyBundle {
    pub identity_key: Vec<u8>,
    pub otk: Option<Vec<u8>>,
    pub spk: SignedPreKey,
}

/// The mathematical shape of a [`PreKeyBundle`].
pub ghost struct PreKeyBundleView {
    pub identity_key: Seq<u8>,
    pub otk: Option<Seq<u8>>,
    pub spk: SignedPreKeyView,
}

impl View for PreKeyBundle {
    type V = PreKeyBundleView;

    open spec fn view(&self) -> PreKeyBundleView {
        PreKeyBundleView {
            identity_key: self.identity_key@,
            otk: opt_view(self.otk),
            spk: self.spk@,
        }
    }
}

impl PreKeyBundleView {
    pub open spec fn wf(self) -> bool {
        &&& self.identity_key.len() == 32
        &&& self.spk.wf()
        &&& (self.otk is Some ==> self.otk.unwrap().len() == 32)
    }
}

/// The first ciphertext from a sender to a recipient, carrying what the
/// recipient needs to re-derive the session key: the sender's identity key
/// in X25519 form, the sender's ephemeral public, and the consumed one-time
/// prekey's public, if one was used.
#[derive(Clone, Debug, PartialEq, Eq)]
pub struct Message {
    pub sender_identity_key: Vec<u8>,
    pub ephemeral_key: Vec<u8>,
    pub otk: Option<Vec<u8>>,
    pub ciphertext: Vec<u8>,
}

/// The mathematical shape of a [`Message`].
pub ghost struct MessageView {
    pub sender_identity_key: Seq<u8>,
    pub ephemeral_key: Seq<u8>,
    pub otk: Option<Seq<u8>>,
    pub ciphertext: Seq<u8>,
}

impl View for Message {
    type V = MessageView;

    open spec fn view(&self) -> MessageView {
        MessageView {
            sender_identity_key: self.sender_identity_key@,
            ephemeral_key: self.ephemeral_key@,
            otk: opt_view(self.otk),
            ciphertext: self.ciphertext@,
        }
    }
}

impl MessageView {
    pub open spec fn wf(self) -> bool {
        &&& self.sender_identity_key.len() == 32
        &&& self.ephemeral_key.len() == 32
        &&& (self.otk is Some ==> self.otk.unwrap().len() == 32)
    }
}

/// The list-of-byte-strings view of a list of keys.
pub open spec fn keys_view(v: Vec<Vec<u8>>) -> Seq<Seq<u8>> {
    Seq::new(v@.len(), |i: int| v@[i]@)
}

/// The byte-string view of an optional buffer.
pub open spec fn opt_view(o: Option<Vec<u8>>) -> Option<Seq<u8>> {
    match o {
        Some(v) => Some(v@),
        None => None,
    }
}

/// Every key of the batch is a 32-byte public.
pub open spec fn all_keys32(keys: Seq<Seq<u8>>) -> bool {
    forall|i: int| 0 <= i < keys.len() ==> (#[trigger] keys[i]).len() == 32
}

/// The signed input of a prekey batch: the concatenation of the publics in
/// declared order. A single signed prekey is the one-element batch.
pub open spec fn spec_concat_keys(keys: Seq<Seq<u8>>) -> Seq<u8>
    decreases keys.len(),
{
    if keys.len() == 0 {
        Seq::empty()
    } else {
        spec_concat_keys(keys.drop_last()) + keys.last()
    }
}

/// Copies a byte string, so that callers can hand out owned copies without
/// lending references into shared state.
pub fn copy_bytes(v: &Vec<u8>) -> (r: Vec<u8>)
    ensures
        r@ == v@,
{
    let mut out: Vec<u8> = Vec::new();
    let mut i: usize = 0;
    while i < v.len()
        invariant
            0 <= i <= v.len(),
            out@ == v@.take(i as int),
        decreases v.len() - i,
    {
        out.push(v[i]);
        i = i + 1;
    }
    proof {
        assert(out@ =~= v@);
    }
    out
}

/// Appends a byte string to a buffer.
pub fn append_bytes(buf: &mut Vec<u8>, v: &Vec<u8>)
    ensures
        final(buf)@ == old(buf)@ + v@,
{
    let mut i: usize = 0;
    while i < v.len()
        invariant
            0 <= i <= v.len(),
            buf@ == old(buf)@ + v@.take(i as int),
        decreases v.len() - i,
    {
        buf.push(v[i]);
        i = i + 1;
    }
    proof {
        assert(old(buf)@ + v@.take(v@.len() as int) =~= old(buf)@ + v@);
    }
}

/// Builds the signed input of a batch: the publics, concatenated in order.
pub fn concat_keys(pre_keys: &Vec<Vec<u8>>) -> (r: Vec<u8>)
    ensures
        r@ == spec_concat_keys(keys_view(*pre_keys)),
{
    let ghost keys: Seq<Seq<u8>> = keys_view(*pre_keys);
    let mut out: Vec<u8> = Vec::new();
    let mut i: usize = 0;
    while i < pre_keys.len()
        invariant
            0 <= i <= pre_keys.len(),
            keys == keys_view(*pre_keys),
            keys.len() == pre_keys.len(),
            out@ == spec_concat_keys(keys.take(i as int)),
        decreases pre_keys.len() - i,
    {
        proof {
            assert(keys.take(i + 1).drop_last() =~= keys.take(i as int));
            assert(keys.take(i + 1).last() == keys[i as int]);
            assert(keys_view(*pre_keys)[i as int] == pre_keys@[i as int]@);
        }
        append_bytes(&mut out, &pre_keys[i]);
        i = i + 1;
    }
    proof {
        assert(keys.take(keys.len() as int) =~= keys);
    }
    out
}

/// Signs a prekey batch: the signature covers the concatenation of the
/// publics in declared order, under the signing side of the identity key.
pub fn sign_bundle(sk: &Vec<u8>, pre_keys: &Vec<Vec<u8>>) -> (r: Vec<u8>)
    requires
        sk@.len() == 32,
    ensures
        r@ == ed_sign_of(sk@, spec_concat_keys(keys_view(*pre_keys))),
        r@.len() == 64,
        ed_verifies(ed_pub_of(sk@), spec_concat_keys(keys_view(*pre_keys)), r@),
{
    let signed_input = concat_keys(pre_keys);
    ed25519_sign(sk.as_slice(), signed_input.as_slice())
}

/// Verifies a prekey batch: accepts exactly when `signature` verifies under
/// `ik` over the concatenation of the publics in declared order; any
/// non-verifying bundle is rejected whole, with `BadSignature`.
pub fn verify_bundle(ik: &Vec<u8>, pre_keys: &Vec<Vec<u8>>, signature: &Vec<u8>) -> (r: Result<
    (),
    ProtocolError,
>)
    requires
        ik@.len() == 32,
        signature@.len() == 64,
    ensures
        r is Ok <==> ed_verifies(ik@, spec_concat_keys(keys_view(*pre_keys)), signature@),
        r is Err ==> r.unwrap_err() == ProtocolError::BadSignature,
{
    let signed_input = concat_keys(pre_keys);
    if ed25519_verify(ik.as_slice(), signed_input.as_slice(), signature.as_slice()) {
        Ok(())
    } else {
        Err(ProtocolError::BadSignature)
    }
}

} // verus!
