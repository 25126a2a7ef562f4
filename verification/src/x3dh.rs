//! The X3DH key agreement itself: the sender derives a session key and an
//! initial message from a fetched prekey bundle; the receiver re-derives the
//! same key from the initial message and its own secrets.
//!
//! The normative shape of the derivation: four Diffie-Hellman values, in a
//! fixed order, concatenated and run through the KDF; the associated data of
//! the initial ciphertext is the sender's X25519 identity public followed by
//! the recipient's; the initial message uses the all-zero 12-byte nonce,
//! never reused because the session key is single-use.

use crate::bundle::{
    append_bytes, copy_bytes, keys_view, opt_view, spec_concat_keys, verify_bundle, Message,
    PreKeyBundle,
};
use crate::crypto::{
    aead_decrypt, aead_encrypt, aead_seal, blake2b512_split, blake2b_of, ed25519_to_x25519_public,
    ed25519_to_x25519_secret, ed_pub_of, ed_scalar_of, ed_verifies, montgomery_of, random_bytes32,
    x25519_dh, x25519_pub_of, x25519_public, x25519_shared,
};
use crate::errors::ProtocolError;
use vstd::prelude::*;

verus! {

/// The first 32 bytes of the BLAKE2b-512 digest of the input.
pub open spec fn kdf_of(input: Seq<u8>) -> Seq<u8> {
    blake2b_of(input).subrange(0, 32)
}

/// The all-zero 12-byte nonce used for the initial message.
pub open spec fn spec_zero_nonce() -> Seq<u8> {
    Seq::new(12, |i: int| 0u8)
}

/// The associated data of the initial ciphertext: the sender's X25519
/// identity public followed by the recipient's, in that order.
pub open spec fn spec_ad(sender_ik_x: Seq<u8>, recipient_ik_x: Seq<u8>) -> Seq<u8> {
    sender_ik_x + recipient_ik_x
}

/// The session key made of the Diffie-Hellman values in their normative
/// order: `KDF(DH1 || DH2 || DH3 [|| DH4])`, the fourth only when a one-time
/// prekey is in play.
pub open spec fn spec_session_key(
    dh1: Seq<u8>,
    dh2: Seq<u8>,
    dh3: Seq<u8>,
    dh4: Option<Seq<u8>>,
) -> Seq<u8> {
    kdf_of(
        dh1 + dh2 + dh3 + (match dh4 {
            Some(d) => d,
            None => Seq::empty(),
        }),
    )
}

/// The session key as the sender derives it, over the sender's X25519
/// identity secret and ephemeral secret and the recipient's publics.
pub open spec fn sender_session_key(
    ika_sec: Seq<u8>,
    ek_sec: Seq<u8>,
    ikb_x: Seq<u8>,
    spk: Seq<u8>,
    otk: Option<Seq<u8>>,
) -> Seq<u8> {
    spec_session_key(
        x25519_shared(ika_sec, spk),
        x25519_shared(ek_sec, ikb_x),
        x25519_shared(ek_sec, spk),
        match otk {
            Some(o) => Some(x25519_shared(ek_sec, o)),
            None => None,
        },
    )
}

/// The session key as the receiver derives it, over the receiver's secrets
/// and the publics carried by the initial message.
pub open spec fn receiver_session_key(
    ikb_scalar: Seq<u8>,
    spk_sec: Seq<u8>,
    otk_sec: Option<Seq<u8>>,
    ika_x: Seq<u8>,
    ek: Seq<u8>,
) -> Seq<u8> {
    spec_session_key(
        x25519_shared(spk_sec, ika_x),
        x25519_shared(ikb_scalar, ek),
        x25519_shared(spk_sec, ek),
        match otk_sec {
            Some(o) => Some(x25519_shared(o, ek)),
            None => None,
        },
    )
}

/// The X25519 publics of an optional secret.
pub open spec fn opt_pub_of(o: Option<Seq<u8>>) -> Option<Seq<u8>> {
    match o {
        Some(s) => Some(x25519_pub_of(s)),
        None => None,
    }
}

/// The key-derivation function: the first 32 bytes of a 512-bit hash of the
/// concatenated Diffie-Hellman values.
pub fn kdf(input: &Vec<u8>) -> (r: Vec<u8>)
    ensures
        r@ == kdf_of(input@),
        r@.len() == 32,
{
    let (l, _) = blake2b512_split(input.as_slice());
    proof {
        assert(l@ =~= blake2b_of(input@).subrange(0, 32));
    }
    l
}

/// One hash-ratchet step: the BLAKE2b-512 digest of a 32-byte key, split
/// into the next chaining key and an output key.
pub fn ratchet(key: &Vec<u8>) -> (r: (Vec<u8>, Vec<u8>))
    requires
        key@.len() == 32,
    ensures
        r.0@ == blake2b_of(key@).subrange(0, 32),
        r.1@ == blake2b_of(key@).subrange(32, 64),
        r.0@.len() == 32,
        r.1@.len() == 32,
{
    let (l, r_half) = blake2b512_split(key.as_slice());
    proof {
        assert(l@ =~= blake2b_of(key@).subrange(0, 32));
        assert(r_half@ =~= blake2b_of(key@).subrange(32, 64));
    }
    (l, r_half)
}

/// The all-zero 12-byte nonce, as an owned buffer.
fn zero_nonce() -> (r: Vec<u8>)
    ensures
        r@ == spec_zero_nonce(),
{
    let mut out: Vec<u8> = Vec::new();
    let mut i: usize = 0;
    while i < 12
        invariant
            0 <= i <= 12,
            out@ == spec_zero_nonce().take(i as int),
        decreases 12 - i,
    {
        out.push(0u8);
        proof {
            assert(out@ =~= spec_zero_nonce().take(i + 1));
        }
        i = i + 1;
    }
    proof {
        assert(out@ =~= spec_zero_nonce());
    }
    out
}

/// Derives the session key from the three or four Diffie-Hellman values.
fn derive_session_key(dh1: &Vec<u8>, dh2: &Vec<u8>, dh3: &Vec<u8>, dh4: &Option<Vec<u8>>) -> (r:
    Vec<u8>)
    ensures
        r@ == spec_session_key(dh1@, dh2@, dh3@, opt_view(*dh4)),
        r@.len() == 32,
{
    let mut input = copy_bytes(dh1);
    crate::bundle::append_bytes(&mut input, dh2);
    crate::bundle::append_bytes(&mut input, dh3);
    match dh4 {
        Some(d) => {
            crate::bundle::append_bytes(&mut input, d);
            proof {
                assert(input@ =~= dh1@ + dh2@ + dh3@ + d@);
            }
        },
        None => {
            proof {
                assert(input@ =~= dh1@ + dh2@ + dh3@ + Seq::<u8>::empty());
            }
        },
    }
    kdf(&input)
}

/// Opens the initial ciphertext under a derived session key: returns the
/// key and the plaintext exactly when the ciphertext is the seal of some
/// plaintext under that key, the zero nonce and the given associated data;
/// fails with `BadCiphertext` otherwise.
fn open_initial(key: Vec<u8>, ad: &Vec<u8>, ciphertext: &Vec<u8>) -> (r: Result<
    (Vec<u8>, Vec<u8>),
    ProtocolError,
>)
    requires
        key@.len() == 32,
    ensures
        r is Ok ==> r.unwrap().0@ == key@ && ciphertext@ == aead_seal(
            key@,
            spec_zero_nonce(),
            ad@,
            r.unwrap().1@,
        ),
        forall|pt: Seq<u8>|
            ciphertext@ == aead_seal(key@, spec_zero_nonce(), ad@, pt) ==> r is Ok
                && r.unwrap().1@ == pt,
        r is Err ==> r.unwrap_err() == ProtocolError::BadCiphertext,
{
    let nonce = zero_nonce();
    match aead_decrypt(key.as_slice(), nonce.as_slice(), ad.as_slice(), ciphertext.as_slice()) {
        Some(pt) => Ok((key, pt)),
        None => Err(ProtocolError::BadCiphertext),
    }
}

/// The sender's side of X3DH. Verifies the signed prekey inside the bundle
/// under the bundle's identity key, generates an ephemeral key pair,
/// computes the three or four Diffie-Hellman values in their normative
/// order, derives the session key, and seals the plaintext with the
/// sender's and recipient's X25519 identity publics as associated data.
///
/// A bundle whose prekey signature does not verify is rejected with
/// `BadSignature`, and with nothing else; on success the emitted message
/// carries the sender's projected identity key, the fresh ephemeral public
/// and the bundle's one-time prekey unchanged, and its ciphertext is the
/// seal of the plaintext under the derived key.
pub fn x3dh_initiate_send(bundle: &PreKeyBundle, sender_ik: &Vec<u8>, plaintext: &[u8]) -> (r:
    Result<(Vec<u8>, Message), ProtocolError>)
    requires
        sender_ik@.len() == 32,
        bundle@.wf(),
    ensures
        (r is Err && r.unwrap_err() == ProtocolError::BadSignature) <==> !ed_verifies(
            bundle@.identity_key,
            bundle@.spk.pre_key,
            bundle@.spk.signature,
        ),
        r is Ok ==> r.unwrap().0@.len() == 32 && r.unwrap().1@.wf(),
        r is Ok ==> r.unwrap().1@.sender_identity_key == montgomery_of(ed_pub_of(sender_ik@))
            && r.unwrap().1@.otk == bundle@.otk,
        r is Ok ==> r.unwrap().1@.ciphertext == aead_seal(
            r.unwrap().0@,
            spec_zero_nonce(),
            spec_ad(montgomery_of(ed_pub_of(sender_ik@)), montgomery_of(bundle@.identity_key)),
            plaintext@,
        ),
        r is Ok ==> exists|ek_sec: Seq<u8>|
            r.unwrap().1@.ephemeral_key == x25519_pub_of(ek_sec) && r.unwrap().0@
                == sender_session_key(
                ed_scalar_of(sender_ik@),
                ek_sec,
                montgomery_of(bundle@.identity_key),
                bundle@.spk.pre_key,
                bundle@.otk,
            ),
{
    // 1. The SPK must verify under the bundle's identity key, as the
    // one-element batch.
    let mut spk_batch: Vec<Vec<u8>> = Vec::new();
    spk_batch.push(copy_bytes(&bundle.spk.pre_key));
    proof {
        assert(keys_view(spk_batch) =~= seq![bundle@.spk.pre_key]);
        assert(seq![bundle@.spk.pre_key].drop_last() =~= Seq::<Seq<u8>>::empty());
        assert(spec_concat_keys(Seq::<Seq<u8>>::empty()) =~= Seq::<u8>::empty());
        assert(seq![bundle@.spk.pre_key].last() == bundle@.spk.pre_key);
        assert(spec_concat_keys(seq![bundle@.spk.pre_key]) =~= bundle@.spk.pre_key);
    }
    match verify_bundle(&bundle.identity_key, &spk_batch, &bundle.spk.signature) {
        Ok(()) => (),
        Err(e) => {
            return Err(e);
        },
    }
    // 2. Project the recipient's identity key to X25519 form.
    let ikb_x = match ed25519_to_x25519_public(bundle.identity_key.as_slice()) {
        Some(v) => v,
        None => {
            return Err(ProtocolError::BadEncoding);
        },
    };
    // 3. The sender's own X25519 identity secret and public.
    let ika_sec = ed25519_to_x25519_secret(sender_ik.as_slice());
    let ika_x = x25519_public(ika_sec.as_slice());
    // 4. A fresh ephemeral key pair.
    let ek_sec = match random_bytes32() {
        Some(v) => v,
        None => {
            return Err(ProtocolError::Transient);
        },
    };
    let ek_pub = x25519_public(ek_sec.as_slice());
    // 5. The Diffie-Hellman values, in their normative order.
    let dh1 = x25519_dh(ika_sec.as_slice(), bundle.spk.pre_key.as_slice());
    let dh2 = x25519_dh(ek_sec.as_slice(), ikb_x.as_slice());
    let dh3 = x25519_dh(ek_sec.as_slice(), bundle.spk.pre_key.as_slice());
    let (dh4, otk_out): (Option<Vec<u8>>, Option<Vec<u8>>) = match &bundle.otk {
        Some(otk) => (Some(x25519_dh(ek_sec.as_slice(), otk.as_slice())), Some(copy_bytes(otk))),
        None => (None, None),
    };
    // 6. The session key.
    let key = derive_session_key(&dh1, &dh2, &dh3, &dh4);
    // 7. Seal the plaintext, associated data sender first.
    let mut ad = copy_bytes(&ika_x);
    append_bytes(&mut ad, &ikb_x);
    let nonce = zero_nonce();
    let ciphertext = match aead_encrypt(key.as_slice(), nonce.as_slice(), ad.as_slice(), plaintext) {
        Some(c) => c,
        None => {
            return Err(ProtocolError::BadEncoding);
        },
    };
    // 8. The initial message.
    let message = Message { sender_identity_key: ika_x, ephemeral_key: ek_pub, otk: otk_out, ciphertext };
    proof {
        let ghost picked = ek_sec@;
        assert(message@.ephemeral_key == x25519_pub_of(picked) && key@ == sender_session_key(
            ed_scalar_of(sender_ik@),
            picked,
            montgomery_of(bundle@.identity_key),
            bundle@.spk.pre_key,
            bundle@.otk,
        ));
    }
    Ok((key, message))
}

/// The receiver's side of X3DH. Re-derives the session key from the
/// receiver's identity key, signed-prekey secret and (when the message
/// consumed one) one-time prekey secret, and opens the initial ciphertext.
///
/// The ensured agreement clause is the key-agreement round trip: whatever
/// sender secrets the carried publics came from, the key derived here is
/// the key the sender derived.
pub fn x3dh_initiate_recv(
    ik: &Vec<u8>,
    spk_sec: &Vec<u8>,
    sender_ik_x: &Vec<u8>,
    ephemeral_key: &Vec<u8>,
    otk_sec: &Option<Vec<u8>>,
    ciphertext: &Vec<u8>,
) -> (r: Result<(Vec<u8>, Vec<u8>), ProtocolError>)
    requires
        ik@.len() == 32,
        spk_sec@.len() == 32,
        sender_ik_x@.len() == 32,
        ephemeral_key@.len() == 32,
        otk_sec matches Some(o) ==> o@.len() == 32,
    ensures
        r is Ok ==> r.unwrap().0@ == receiver_session_key(
            ed_scalar_of(ik@),
            spk_sec@,
            opt_view(*otk_sec),
            sender_ik_x@,
            ephemeral_key@,
        ) && r.unwrap().0@.len() == 32,
        r is Ok ==> ciphertext@ == aead_seal(
            r.unwrap().0@,
            spec_zero_nonce(),
            spec_ad(sender_ik_x@, montgomery_of(ed_pub_of(ik@))),
            r.unwrap().1@,
        ),
        forall|pt: Seq<u8>|
            ciphertext@ == aead_seal(
                receiver_session_key(
                    ed_scalar_of(ik@),
                    spk_sec@,
                    opt_view(*otk_sec),
                    sender_ik_x@,
                    ephemeral_key@,
                ),
                spec_zero_nonce(),
                spec_ad(sender_ik_x@, montgomery_of(ed_pub_of(ik@))),
                pt,
            ) ==> r is Ok && r.unwrap().1@ == pt,
        r is Err ==> r.unwrap_err() == ProtocolError::BadCiphertext,
        forall|ika_sec: Seq<u8>, ek_sec: Seq<u8>|
            sender_ik_x@ == x25519_pub_of(ika_sec) && ephemeral_key@ == x25519_pub_of(ek_sec)
                ==> receiver_session_key(
                ed_scalar_of(ik@),
                spk_sec@,
                opt_view(*otk_sec),
                sender_ik_x@,
                ephemeral_key@,
            ) == sender_session_key(
                ika_sec,
                ek_sec,
                montgomery_of(ed_pub_of(ik@)),
                x25519_pub_of(spk_sec@),
                opt_pub_of(opt_view(*otk_sec)),
            ),
{
    // 1. The receiver's X25519 identity secret, and its public for the
    // associated data.
    let scalar = ed25519_to_x25519_secret(ik.as_slice());
    let ik_x = x25519_public(scalar.as_slice());
    // 2. The same Diffie-Hellman values from the receiving side.
    let dh1 = x25519_dh(spk_sec.as_slice(), sender_ik_x.as_slice());
    let dh2 = x25519_dh(scalar.as_slice(), ephemeral_key.as_slice());
    let dh3 = x25519_dh(spk_sec.as_slice(), ephemeral_key.as_slice());
    let dh4: Option<Vec<u8>> = match otk_sec {
        Some(o) => Some(x25519_dh(o.as_slice(), ephemeral_key.as_slice())),
        None => None,
    };
    // 3. The session key, and the agreement with the sender's derivation.
    let key = derive_session_key(&dh1, &dh2, &dh3, &dh4);
    proof {
        assert forall|ika_sec: Seq<u8>, ek_sec: Seq<u8>|
            sender_ik_x@ == x25519_pub_of(ika_sec) && ephemeral_key@ == x25519_pub_of(ek_sec)
                implies receiver_session_key(
                ed_scalar_of(ik@),
                spk_sec@,
                opt_view(*otk_sec),
                sender_ik_x@,
                ephemeral_key@,
            ) == sender_session_key(
                ika_sec,
                ek_sec,
                montgomery_of(ed_pub_of(ik@)),
                x25519_pub_of(spk_sec@),
                opt_pub_of(opt_view(*otk_sec)),
            ) by {
            assert(dh1@ == x25519_shared(ika_sec, x25519_pub_of(spk_sec@)));
            assert(dh2@ == x25519_shared(ek_sec, x25519_pub_of(scalar@)));
            assert(dh3@ == x25519_shared(ek_sec, x25519_pub_of(spk_sec@)));
        }
    }
    // 4. Associated data: the sender's identity public, then the
    // receiver's.
    let mut ad = copy_bytes(sender_ik_x);
    append_bytes(&mut ad, &ik_x);
    // 5. Open the initial ciphertext.
    open_initial(key, &ad, ciphertext)
}

} // verus!
