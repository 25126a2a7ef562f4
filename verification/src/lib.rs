//! Server-side rendezvous and cryptographic core for an X3DH-based
//! end-to-end encrypted messaging service.
//!
//! The crate is organised leaves first: `crypto` wraps the curve, hash and
//! AEAD primitives behind trusted contracts; `bundle` defines identity
//! keys, signed prekeys, prekey batches and messages, and the signing rule
//! over batches; `wire` is the byte-exact codec; `x3dh` derives session
//! keys on both sides; `store` owns per-identity key material; `router`
//! owns mailboxes and live delivery channels; `server` ties the four
//! external operations together; `client` keeps a client's secrets; `laws`
//! proves the properties that relate several operations.

pub mod bundle;
pub mod client;
pub mod crypto;
pub mod errors;
pub mod laws;
pub mod router;
pub mod server;
pub mod store;
pub mod wire;
pub mod x3dh;
