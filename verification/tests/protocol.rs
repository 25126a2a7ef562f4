//! End-to-end scenarios over the in-memory server and two clients.

use brongnal::bundle::SignedPreKey;
use brongnal::client::MemoryClient;
use brongnal::errors::ProtocolError;
use brongnal::router::Delivery;
use brongnal::server::MemoryServer;
use brongnal::x3dh::{x3dh_initiate_recv, x3dh_initiate_send};

fn verifying_key_of(client: &MemoryClient) -> Vec<u8> {
    client.get_verifying_key().unwrap()
}

#[test]
fn offline_handoff() {
    let mut server = MemoryServer::new();
    let mut bob = MemoryClient::new().unwrap();
    let bob_name = "Bob".to_string();

    server
        .set_spk(&bob_name, verifying_key_of(&bob), bob.get_spk().unwrap())
        .unwrap();
    let batch = bob.add_one_time_keys(1).unwrap();
    server
        .publish_otk_bundle(&bob_name, verifying_key_of(&bob), batch)
        .unwrap();

    // Bob is offline. Alice fetches a bundle and sends a ciphertext.
    let alice = MemoryClient::new().unwrap();
    let bundle = server.fetch_prekey_bundle(&bob_name).unwrap();
    assert!(bundle.otk.is_some());
    let (alice_key, message) =
        x3dh_initiate_send(&bundle, &alice.get_identity_key().unwrap(), b"Hi Bob").unwrap();
    assert_eq!(server.send_message(&bob_name, message), Delivery::Enqueued);

    // Bob retrieves: exactly one message, which decrypts to the plaintext.
    let (drained, _stream) = server.retrieve_messages(&bob_name, 4);
    assert_eq!(drained.len(), 1);
    let m = &drained[0];
    let otk_sec = bob
        .fetch_wipe_one_time_secret_key(m.otk.as_ref().unwrap())
        .unwrap();
    let (bob_key, plaintext) = x3dh_initiate_recv(
        &bob.get_identity_key().unwrap(),
        &bob.get_pre_key().unwrap(),
        &m.sender_identity_key,
        &m.ephemeral_key,
        &Some(otk_sec),
        &m.ciphertext,
    )
    .unwrap();
    assert_eq!(plaintext, b"Hi Bob".to_vec());
    assert_eq!(alice_key, bob_key);
}

#[test]
fn otk_exhaustion() {
    let mut server = MemoryServer::new();
    let mut bob = MemoryClient::new().unwrap();
    let bob_name = "Bob".to_string();
    server
        .set_spk(&bob_name, verifying_key_of(&bob), bob.get_spk().unwrap())
        .unwrap();
    let batch = bob.add_one_time_keys(2).unwrap();
    server
        .publish_otk_bundle(&bob_name, verifying_key_of(&bob), batch)
        .unwrap();

    let b1 = server.fetch_prekey_bundle(&bob_name).unwrap();
    let b2 = server.fetch_prekey_bundle(&bob_name).unwrap();
    let b3 = server.fetch_prekey_bundle(&bob_name).unwrap();
    let k1 = b1.otk.clone().unwrap();
    let k2 = b2.otk.clone().unwrap();
    assert_ne!(k1, k2);
    assert!(b3.otk.is_none());

    // All three senders still complete the agreement; the third runs the
    // three-DH form.
    for bundle in [b1, b2, b3] {
        let sender = MemoryClient::new().unwrap();
        let had_otk = bundle.otk.is_some();
        let (sender_key, m) =
            x3dh_initiate_send(&bundle, &sender.get_identity_key().unwrap(), b"hello").unwrap();
        let otk_sec = match &m.otk {
            Some(k) => Some(bob.fetch_wipe_one_time_secret_key(k).unwrap()),
            None => None,
        };
        assert_eq!(had_otk, otk_sec.is_some());
        let (bob_key, pt) = x3dh_initiate_recv(
            &bob.get_identity_key().unwrap(),
            &bob.get_pre_key().unwrap(),
            &m.sender_identity_key,
            &m.ephemeral_key,
            &otk_sec,
            &m.ciphertext,
        )
        .unwrap();
        assert_eq!(sender_key, bob_key);
        assert_eq!(pt, b"hello".to_vec());
    }
}

#[test]
fn live_streaming() {
    let mut server = MemoryServer::new();
    let mut bob = MemoryClient::new().unwrap();
    let bob_name = "Bob".to_string();
    server
        .set_spk(&bob_name, verifying_key_of(&bob), bob.get_spk().unwrap())
        .unwrap();
    let batch = bob.add_one_time_keys(3).unwrap();
    server
        .publish_otk_bundle(&bob_name, verifying_key_of(&bob), batch)
        .unwrap();

    // Bob attaches first; no messages yet.
    let (drained, mut stream) = server.retrieve_messages(&bob_name, 4);
    assert!(drained.is_empty());

    // Alice sends three messages back to back; each goes to the stream.
    let alice = MemoryClient::new().unwrap();
    let mut sent = Vec::new();
    for text in [b"one".to_vec(), b"two".to_vec(), b"three".to_vec()] {
        let bundle = server.fetch_prekey_bundle(&bob_name).unwrap();
        let (_, m) =
            x3dh_initiate_send(&bundle, &alice.get_identity_key().unwrap(), &text).unwrap();
        sent.push(m.ciphertext.clone());
        assert_eq!(server.send_message(&bob_name, m), Delivery::Streamed);
    }
    for ct in sent {
        let got = stream.try_recv().expect("a streamed message");
        assert_eq!(got.ciphertext, ct);
    }
    assert!(stream.try_recv().is_err());
}

#[test]
fn reconnect_race() {
    let mut server = MemoryServer::new();
    let mut bob = MemoryClient::new().unwrap();
    let bob_name = "Bob".to_string();
    server
        .set_spk(&bob_name, verifying_key_of(&bob), bob.get_spk().unwrap())
        .unwrap();
    let batch = bob.add_one_time_keys(1).unwrap();
    server
        .publish_otk_bundle(&bob_name, verifying_key_of(&bob), batch)
        .unwrap();

    // Bob attaches, then his connection drops.
    let (_, stream) = server.retrieve_messages(&bob_name, 4);
    drop(stream);

    // Alice's next send observes the dead channel and enqueues instead.
    let alice = MemoryClient::new().unwrap();
    let bundle = server.fetch_prekey_bundle(&bob_name).unwrap();
    let (_, m) =
        x3dh_initiate_send(&bundle, &alice.get_identity_key().unwrap(), b"still there?").unwrap();
    let ct = m.ciphertext.clone();
    assert_eq!(server.send_message(&bob_name, m), Delivery::Enqueued);

    // Bob re-retrieves and receives the enqueued message.
    let (drained, _stream2) = server.retrieve_messages(&bob_name, 4);
    assert_eq!(drained.len(), 1);
    assert_eq!(drained[0].ciphertext, ct);
}

#[test]
fn bad_signature_rejection() {
    let mut server = MemoryServer::new();
    let bob = MemoryClient::new().unwrap();
    let bob_name = "Bob".to_string();
    let mut spk = bob.get_spk().unwrap();
    spk.signature[0] ^= 1;
    let err = server
        .set_spk(&bob_name, verifying_key_of(&bob), spk)
        .unwrap_err();
    assert_eq!(err, ProtocolError::BadSignature);
    assert_eq!(
        brongnal::errors::status_of(err),
        brongnal::errors::StatusKind::Unauthenticated
    );
    // The store is unchanged: the identity was never registered.
    assert_eq!(
        server.fetch_prekey_bundle(&bob_name).unwrap_err(),
        ProtocolError::UnknownIdentity
    );
}

#[test]
fn spk_rotation() {
    let mut server = MemoryServer::new();
    let mut bob = MemoryClient::new().unwrap();
    let bob_name = "Bob".to_string();

    let spk1 = bob.get_spk().unwrap();
    server
        .set_spk(&bob_name, verifying_key_of(&bob), spk1.clone())
        .unwrap();
    let batch = bob.add_one_time_keys(2).unwrap();
    server
        .publish_otk_bundle(&bob_name, verifying_key_of(&bob), batch)
        .unwrap();

    // Rotate to a second signed prekey under the same identity key.
    let sec2 = vec![42u8; 32];
    let pub2 = brongnal::crypto::x25519_public(&sec2);
    let sig2 = brongnal::bundle::sign_bundle(
        &bob.get_identity_key().unwrap(),
        &vec![pub2.clone()],
    );
    let spk2 = SignedPreKey { pre_key: pub2.clone(), signature: sig2 };
    server
        .set_spk(&bob_name, verifying_key_of(&bob), spk2)
        .unwrap();

    // Subsequent fetches return the new prekey; the one-time prekey pool is
    // preserved across rotation (this crate's documented choice: one-time
    // prekeys are signed under the long-lived identity key).
    let bundle = server.fetch_prekey_bundle(&bob_name).unwrap();
    assert_eq!(bundle.spk.pre_key, pub2);
    assert_ne!(bundle.spk.pre_key, spk1.pre_key);
    assert!(bundle.otk.is_some());
}

#[test]
fn mailbox_fifo() {
    let mut server = MemoryServer::new();
    let mut bob = MemoryClient::new().unwrap();
    let bob_name = "Bob".to_string();
    server
        .set_spk(&bob_name, verifying_key_of(&bob), bob.get_spk().unwrap())
        .unwrap();

    let alice = MemoryClient::new().unwrap();
    let mut cts = Vec::new();
    for text in [b"first".to_vec(), b"second".to_vec()] {
        let bundle = server.fetch_prekey_bundle(&bob_name).unwrap();
        let (_, m) =
            x3dh_initiate_send(&bundle, &alice.get_identity_key().unwrap(), &text).unwrap();
        cts.push(m.ciphertext.clone());
        assert_eq!(server.send_message(&bob_name, m), Delivery::Enqueued);
    }
    let (drained, _stream) = server.retrieve_messages(&bob_name, 4);
    assert_eq!(drained.len(), 2);
    assert_eq!(drained[0].ciphertext, cts[0]);
    assert_eq!(drained[1].ciphertext, cts[1]);

    // A second retrieve yields nothing: the drain emptied the mailbox.
    let (again, _stream2) = server.retrieve_messages(&bob_name, 4);
    assert!(again.is_empty());
}

#[test]
fn ciphertext_tamper_detection() {
    let mut bob = MemoryClient::new().unwrap();
    let mut server = MemoryServer::new();
    let bob_name = "Bob".to_string();
    server
        .set_spk(&bob_name, verifying_key_of(&bob), bob.get_spk().unwrap())
        .unwrap();
    let batch = bob.add_one_time_keys(1).unwrap();
    server
        .publish_otk_bundle(&bob_name, verifying_key_of(&bob), batch)
        .unwrap();
    let alice = MemoryClient::new().unwrap();
    let bundle = server.fetch_prekey_bundle(&bob_name).unwrap();
    let (_, m) = x3dh_initiate_send(&bundle, &alice.get_identity_key().unwrap(), b"x").unwrap();
    let otk_sec = bob
        .fetch_wipe_one_time_secret_key(m.otk.as_ref().unwrap())
        .unwrap();

    // Flipping any bit of the ciphertext makes the open fail.
    for byte in 0..m.ciphertext.len() {
        for bit in 0..8u8 {
            let mut tampered = m.ciphertext.clone();
            tampered[byte] ^= 1 << bit;
            let err = x3dh_initiate_recv(
                &bob.get_identity_key().unwrap(),
                &bob.get_pre_key().unwrap(),
                &m.sender_identity_key,
                &m.ephemeral_key,
                &Some(otk_sec.clone()),
                &tampered,
            )
            .unwrap_err();
            assert_eq!(err, ProtocolError::BadCiphertext);
        }
    }
}

#[test]
fn associated_data_binding() {
    let mut bob = MemoryClient::new().unwrap();
    let mut server = MemoryServer::new();
    let bob_name = "Bob".to_string();
    server
        .set_spk(&bob_name, verifying_key_of(&bob), bob.get_spk().unwrap())
        .unwrap();
    let batch = bob.add_one_time_keys(1).unwrap();
    server
        .publish_otk_bundle(&bob_name, verifying_key_of(&bob), batch)
        .unwrap();
    let alice = MemoryClient::new().unwrap();
    let bundle = server.fetch_prekey_bundle(&bob_name).unwrap();
    let (_, m) = x3dh_initiate_send(&bundle, &alice.get_identity_key().unwrap(), b"x").unwrap();
    let otk_sec = bob
        .fetch_wipe_one_time_secret_key(m.otk.as_ref().unwrap())
        .unwrap();

    // Presenting the recipient's own identity key where the sender's should
    // stand changes the associated data, and the open fails.
    let scalar = brongnal::crypto::ed25519_to_x25519_secret(&bob.get_identity_key().unwrap());
    let bob_ik_x = brongnal::crypto::x25519_public(&scalar);
    assert!(x3dh_initiate_recv(
        &bob.get_identity_key().unwrap(),
        &bob.get_pre_key().unwrap(),
        &bob_ik_x,
        &m.ephemeral_key,
        &Some(otk_sec),
        &m.ciphertext,
    )
    .is_err());
}

#[test]
fn otk_replay_is_rejected() {
    let mut bob = MemoryClient::new().unwrap();
    let batch = bob.add_one_time_keys(1).unwrap();
    let otk_pub = batch.pre_keys[0].clone();

    // First use wipes the secret; a replayed initial message cannot find it.
    assert!(bob.fetch_wipe_one_time_secret_key(&otk_pub).is_ok());
    assert_eq!(
        bob.fetch_wipe_one_time_secret_key(&otk_pub).unwrap_err(),
        ProtocolError::UnknownOtk
    );
}
