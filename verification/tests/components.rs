//! Unit tests of the components: bundle signing, the store's consumption
//! rules, the primitive wrappers, errors and session keys.

use brongnal::bundle::{sign_bundle, verify_bundle, SignedPreKeys};
use brongnal::client::MemoryClient;
use brongnal::crypto::x25519_public;
use brongnal::errors::{status_of, ProtocolError, StatusKind};
use brongnal::server::MemoryServer;
use brongnal::x3dh::ratchet;
use blake2::Digest;

/// A fixed, recognisable 32-byte secret for deterministic tests.
fn test_bytes(tag: u8) -> Vec<u8> {
    vec![tag; 32]
}

#[test]
fn signature_soundness() {
    let signer = MemoryClient::new().unwrap();
    let sk = signer.get_identity_key().unwrap();
    let vk = signer.get_verifying_key().unwrap();
    let key = x25519_public(&test_bytes(1));
    let keys = vec![key.clone()];
    let signature = sign_bundle(&sk, &keys);
    assert!(verify_bundle(&vk, &keys, &signature).is_ok());

    // Any mutation of the signed 32-byte public is rejected.
    for i in 0..32 {
        let mut mutated = key.clone();
        mutated[i] ^= 0x40;
        let err = verify_bundle(&vk, &vec![mutated], &signature).unwrap_err();
        assert_eq!(err, ProtocolError::BadSignature);
    }
}

#[test]
fn batch_signature_covers_order() {
    let signer = MemoryClient::new().unwrap();
    let sk = signer.get_identity_key().unwrap();
    let vk = signer.get_verifying_key().unwrap();
    let a = x25519_public(&test_bytes(2));
    let b = x25519_public(&test_bytes(3));
    let signature = sign_bundle(&sk, &vec![a.clone(), b.clone()]);
    assert!(verify_bundle(&vk, &vec![a.clone(), b.clone()], &signature).is_ok());
    // Swapping two batch entries changes the signed input.
    assert!(verify_bundle(&vk, &vec![b, a], &signature).is_err());
}

#[test]
fn verify_under_wrong_identity_fails() {
    let signer = MemoryClient::new().unwrap();
    let sk = signer.get_identity_key().unwrap();
    let other_vk = MemoryClient::new().unwrap().get_verifying_key().unwrap();
    let keys = vec![x25519_public(&test_bytes(4))];
    let signature = sign_bundle(&sk, &keys);
    assert!(verify_bundle(&other_vk, &keys, &signature).is_err());
}

#[test]
fn ratchet_splits_the_digest() {
    let key = test_bytes(5);
    let (l, r) = ratchet(&key);
    assert_eq!(l.len(), 32);
    assert_eq!(r.len(), 32);
    assert_ne!(l, key);
    assert_ne!(l, r);
    let digest = blake2::Blake2b512::digest(&key);
    assert_eq!(l, digest[0..32].to_vec());
    assert_eq!(r, digest[32..64].to_vec());
}

#[test]
fn publish_requires_registration() {
    let mut server = MemoryServer::new();
    let mut bob = MemoryClient::new().unwrap();
    let vk = bob.get_verifying_key().unwrap();
    let batch = bob.add_one_time_keys(1).unwrap();
    // Publishing one-time prekeys before any signed prekey is rejected:
    // the identity does not exist yet.
    let err = server
        .publish_otk_bundle(&"Bob".to_string(), vk, batch)
        .unwrap_err();
    assert_eq!(err, ProtocolError::UnknownIdentity);
}

#[test]
fn fetch_unknown_identity_fails() {
    let mut server = MemoryServer::new();
    assert_eq!(
        server.fetch_prekey_bundle(&"nobody".to_string()).unwrap_err(),
        ProtocolError::UnknownIdentity
    );
}

#[test]
fn malformed_fields_are_bad_encoding() {
    let mut server = MemoryServer::new();
    let bob = MemoryClient::new().unwrap();
    let spk = bob.get_spk().unwrap();
    // A 31-byte identity key is malformed.
    let short_ik = vec![0u8; 31];
    assert_eq!(
        server.set_spk(&"Bob".to_string(), short_ik, spk).unwrap_err(),
        ProtocolError::BadEncoding
    );
    // So is a batch holding a short public.
    let vk = bob.get_verifying_key().unwrap();
    server
        .set_spk(&"Bob".to_string(), vk.clone(), bob.get_spk().unwrap())
        .unwrap();
    let bad_batch = SignedPreKeys { pre_keys: vec![vec![0u8; 16]], signature: vec![0u8; 64] };
    assert_eq!(
        server
            .publish_otk_bundle(&"Bob".to_string(), vk, bad_batch)
            .unwrap_err(),
        ProtocolError::BadEncoding
    );
}

#[test]
fn status_mapping() {
    assert_eq!(status_of(ProtocolError::BadEncoding), StatusKind::InvalidArgument);
    assert_eq!(status_of(ProtocolError::BadSignature), StatusKind::Unauthenticated);
    assert_eq!(status_of(ProtocolError::UnknownIdentity), StatusKind::NotFound);
    assert_eq!(status_of(ProtocolError::UnknownOtk), StatusKind::NotFound);
    assert_eq!(status_of(ProtocolError::BadCiphertext), StatusKind::Internal);
    assert_eq!(status_of(ProtocolError::Transient), StatusKind::Internal);
}

#[test]
fn session_keys_lifecycle() {
    let mut keys = brongnal::client::SessionKeys::new();
    let peer = "Alice".to_string();
    assert_eq!(
        keys.get_encryption_key(&peer).unwrap_err(),
        ProtocolError::UnknownIdentity
    );
    let key = test_bytes(6);
    keys.set_session_key(peer.clone(), &key);
    assert_eq!(keys.get_encryption_key(&peer).unwrap(), key);
    keys.destroy_session_key(&peer);
    assert!(keys.get_encryption_key(&peer).is_err());
}

#[test]
fn aead_ciphertext_is_not_the_plaintext() {
    let mut bob = MemoryClient::new().unwrap();
    let mut server = MemoryServer::new();
    let bob_name = "Bob".to_string();
    let vk = bob.get_verifying_key().unwrap();
    server.set_spk(&bob_name, vk.clone(), bob.get_spk().unwrap()).unwrap();
    let batch = bob.add_one_time_keys(1).unwrap();
    server.publish_otk_bundle(&bob_name, vk, batch).unwrap();
    let alice = MemoryClient::new().unwrap();
    let bundle = server.fetch_prekey_bundle(&bob_name).unwrap();
    let plaintext = b"sixteen byte msg".to_vec();
    let (_, m) =
        brongnal::x3dh::x3dh_initiate_send(&bundle, &alice.get_identity_key().unwrap(), &plaintext)
            .unwrap();
    assert_eq!(m.ciphertext.len(), plaintext.len() + 16);
    assert_ne!(m.ciphertext[..plaintext.len()].to_vec(), plaintext);
}

#[test]
fn message_codec_round_trip() {
    let sender_identity_key = x25519_public(&test_bytes(7));
    let ephemeral_key = x25519_public(&test_bytes(8));
    let otk = x25519_public(&test_bytes(9));
    for otk_field in [None, Some(otk)] {
        let m = brongnal::bundle::Message {
            sender_identity_key: sender_identity_key.clone(),
            ephemeral_key: ephemeral_key.clone(),
            otk: otk_field,
            ciphertext: vec![9u8, 8, 7, 6],
        };
        let encoded = brongnal::wire::encode_message(&m);
        let expected_len = 65 + if m.otk.is_some() { 32 } else { 0 } + 4;
        assert_eq!(encoded.len(), expected_len);
        assert_eq!(encoded[0..32], m.sender_identity_key[..]);
        assert_eq!(encoded[32..64], m.ephemeral_key[..]);
        assert_eq!(encoded[64], if m.otk.is_some() { 1 } else { 0 });
        assert_eq!(encoded[expected_len - 4..], [9u8, 8, 7, 6]);
        let decoded = brongnal::wire::decode_message(&encoded).unwrap();
        assert_eq!(decoded, m);
    }
}

#[test]
fn bundle_codec_round_trip() {
    let mut bob = MemoryClient::new().unwrap();
    let mut server = MemoryServer::new();
    let bob_name = "Bob".to_string();
    let vk = bob.get_verifying_key().unwrap();
    server.set_spk(&bob_name, vk.clone(), bob.get_spk().unwrap()).unwrap();
    let batch = bob.add_one_time_keys(1).unwrap();
    server.publish_otk_bundle(&bob_name, vk, batch).unwrap();
    let bundle = server.fetch_prekey_bundle(&bob_name).unwrap();
    let encoded = brongnal::wire::encode_bundle(&bundle);
    assert_eq!(encoded.len(), 161);
    let decoded = brongnal::wire::decode_bundle(&encoded).unwrap();
    assert_eq!(decoded, bundle);
}

#[test]
fn codec_rejects_malformed_input() {
    assert_eq!(
        brongnal::wire::decode_message(&vec![0u8; 64]).unwrap_err(),
        ProtocolError::BadEncoding
    );
    // A presence byte other than 0 or 1 is malformed.
    let mut bad_flag = vec![0u8; 70];
    bad_flag[64] = 7;
    assert_eq!(
        brongnal::wire::decode_message(&bad_flag).unwrap_err(),
        ProtocolError::BadEncoding
    );
    // A bundle must be exactly 129 or 161 bytes.
    assert_eq!(
        brongnal::wire::decode_bundle(&vec![0u8; 140]).unwrap_err(),
        ProtocolError::BadEncoding
    );
}
