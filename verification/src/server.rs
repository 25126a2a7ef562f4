//! The service façade: the in-memory server owning the identity store and
//! the message router, translating the four external operations onto them.
//! It is the only place that checks the wire-level shape of incoming fields
//! (rejecting malformed ones with `BadEncoding`) before the components'
//! logic runs.

use crate::bundle::{Message, PreKeyBundle, SignedPreKey, SignedPreKeys};
use crate::crypto::ed_verifies;
use crate::errors::ProtocolError;
use crate::router::{Delivery, Router};
use crate::store::{IdentityRecordView, IdentityStore};
use crate::bundle::MessageView;
use vstd::prelude::*;

verus! {

/// The in-memory server: identity store and message router behind one
/// handle.
pub struct MemoryServer {
    store: IdentityStore,
    router: Router,
}

impl MemoryServer {
    /// The identity is registered.
    pub closed spec fn contains(self, id: Seq<char>) -> bool {
        self.store.contains(id)
    }

    /// The record of a registered identity.
    pub closed spec fn rec(self, id: Seq<char>) -> IdentityRecordView {
        self.store.rec(id)
    }

    /// The recipient's mailbox, in arrival order.
    pub closed spec fn mailbox(self, id: Seq<char>) -> Seq<MessageView> {
        self.router.mailbox(id)
    }

    /// A live channel is attached for the identity.
    pub closed spec fn attached(self, id: Seq<char>) -> bool {
        self.router.attached(id)
    }

    /// The server's key material is well formed.
    pub closed spec fn wf(self) -> bool {
        self.store.wf()
    }

    /// Creates a server with no identities, no mailboxes and no attached
    /// consumers.
    pub fn new() -> (r: Self)
        ensures
            r.wf(),
            forall|id: Seq<char>| !r.contains(id),
            forall|id: Seq<char>| r.mailbox(id).len() == 0 && !r.attached(id),
    {
        let store = IdentityStore::new();
        let router = Router::new();
        let r = MemoryServer { store, router };
        proof {
            assert forall|id: Seq<char>| r.mailbox(id).len() == 0 && !r.attached(id) by {
                assert(router.mailbox(id).len() == 0);
                assert(!router.attached(id));
            }
            assert forall|id: Seq<char>| !r.contains(id) by {
                assert(!store.contains(id));
            }
        }
        r
    }

    /// Registers an identity or rotates its signed prekey. Malformed key
    /// material is rejected with `BadEncoding` and a bad signature with
    /// `BadSignature`; on any rejection the server is unchanged.
    pub fn set_spk(&mut self, identity: &String, ik: Vec<u8>, spk: SignedPreKey) -> (r: Result<
        (),
        ProtocolError,
    >)
        requires
            old(self).wf(),
        ensures
            final(self).wf(),
            !(ik@.len() == 32 && spk@.wf()) ==> r is Err && r.unwrap_err()
                == ProtocolError::BadEncoding && *final(self) == *old(self),
            ik@.len() == 32 && spk@.wf() ==> {
                &&& r is Ok <==> ed_verifies(ik@, spk@.pre_key, spk@.signature)
                &&& (r is Err ==> r.unwrap_err() == ProtocolError::BadSignature && *final(self)
                    == *old(self))
                &&& (r is Ok ==> final(self).contains(identity@) && final(self).rec(identity@)
                    == (IdentityRecordView {
                    identity_key: ik@,
                    spk: spk@,
                    otks: if old(self).contains(identity@) {
                        old(self).rec(identity@).otks
                    } else {
                        Seq::empty()
                    },
                }))
            },
            forall|id: Seq<char>|
                id != identity@ ==> (final(self).contains(id) <==> old(self).contains(id)),
            forall|id: Seq<char>|
                id != identity@ && old(self).contains(id) ==> final(self).rec(id) == old(
                    self,
                ).rec(id),
            forall|id: Seq<char>|
                final(self).mailbox(id) == old(self).mailbox(id) && (final(self).attached(id)
                    <==> old(self).attached(id)),
    {
        if ik.len() != 32 || spk.pre_key.len() != 32 || spk.signature.len() != 64 {
            return Err(ProtocolError::BadEncoding);
        }
        self.store.set_spk(identity, ik, spk)
    }

    /// Publishes a batch of one-time prekeys for a registered identity.
    pub fn publish_otk_bundle(
        &mut self,
        identity: &String,
        ik: Vec<u8>,
        otk_bundle: SignedPreKeys,
    ) -> (r: Result<(), ProtocolError>)
        requires
            old(self).wf(),
        ensures
            final(self).wf(),
            !(ik@.len() == 32 && otk_bundle@.wf()) ==> r is Err && r.unwrap_err()
                == ProtocolError::BadEncoding && *final(self) == *old(self),
            ik@.len() == 32 && otk_bundle@.wf() ==> {
                &&& r is Ok <==> old(self).contains(identity@) && ed_verifies(
                    ik@,
                    crate::bundle::spec_concat_keys(otk_bundle@.pre_keys),
                    otk_bundle@.signature,
                )
                &&& (!old(self).contains(identity@) ==> r is Err && r.unwrap_err()
                    == ProtocolError::UnknownIdentity)
                &&& (r is Err ==> *final(self) == *old(self))
                &&& (r is Ok ==> final(self).rec(identity@) == (IdentityRecordView {
                    identity_key: old(self).rec(identity@).identity_key,
                    spk: old(self).rec(identity@).spk,
                    otks: old(self).rec(identity@).otks + otk_bundle@.pre_keys,
                }))
            },
            forall|id: Seq<char>|
                id != identity@ ==> (final(self).contains(id) <==> old(self).contains(id)),
            forall|id: Seq<char>|
                id != identity@ && old(self).contains(id) ==> final(self).rec(id) == old(
                    self,
                ).rec(id),
            forall|id: Seq<char>|
                final(self).mailbox(id) == old(self).mailbox(id) && (final(self).attached(id)
                    <==> old(self).attached(id)),
    {
        if ik.len() != 32 || otk_bundle.signature.len() != 64 {
            return Err(ProtocolError::BadEncoding);
        }
        let mut i: usize = 0;
        #[verifier::loop_isolation(false)]
        while i < otk_bundle.pre_keys.len()
            invariant
                0 <= i <= otk_bundle.pre_keys.len(),
                forall|j: int|
                    0 <= j < i ==> (#[trigger] otk_bundle@.pre_keys[j]).len() == 32,
            decreases otk_bundle.pre_keys.len() - i,
        {
            if otk_bundle.pre_keys[i].len() != 32 {
                proof {
                    assert(otk_bundle@.pre_keys[i as int].len() != 32);
                    assert(!otk_bundle@.wf());
                }
                return Err(ProtocolError::BadEncoding);
            }
            i = i + 1;
        }
        self.store.publish_otk_bundle(identity, ik, otk_bundle)
    }

    /// Reads an identity's prekey bundle, atomically consuming one one-time
    /// prekey if the pool is not empty.
    pub fn fetch_prekey_bundle(&mut self, identity: &String) -> (r: Result<
        PreKeyBundle,
        ProtocolError,
    >)
        requires
            old(self).wf(),
        ensures
            final(self).wf(),
            r is Ok <==> old(self).contains(identity@),
            r is Err ==> r.unwrap_err() == ProtocolError::UnknownIdentity && *final(self) == *old(
                self,
            ),
            r is Ok ==> {
                let b = r.unwrap()@;
                let prior = old(self).rec(identity@);
                &&& b.wf()
                &&& b.identity_key == prior.identity_key
                &&& b.spk == prior.spk
                &&& (prior.otks.len() == 0 ==> b.otk is None && final(self).rec(identity@)
                    == prior)
                &&& (prior.otks.len() > 0 ==> b.otk == Some(prior.otks.last())
                    && final(self).rec(identity@) == (IdentityRecordView {
                    identity_key: prior.identity_key,
                    spk: prior.spk,
                    otks: prior.otks.drop_last(),
                }))
            },
            forall|id: Seq<char>|
                id != identity@ ==> (final(self).contains(id) <==> old(self).contains(id)),
            forall|id: Seq<char>|
                id != identity@ && old(self).contains(id) ==> final(self).rec(id) == old(
                    self,
                ).rec(id),
            forall|id: Seq<char>|
                final(self).mailbox(id) == old(self).mailbox(id) && (final(self).attached(id)
                    <==> old(self).attached(id)),
    {
        self.store.fetch_bundle(identity)
    }

    /// Routes one message to a recipient: streamed inline when a live
    /// consumer takes it, enqueued to the mailbox otherwise. Sending to an
    /// unregistered recipient is allowed.
    pub fn send_message(&mut self, recipient: &String, message: Message) -> (r: Delivery)
        requires
            old(self).wf(),
        ensures
            final(self).wf(),
            r == Delivery::Streamed ==> old(self).attached(recipient@) && forall|id: Seq<char>|
                final(self).mailbox(id) == old(self).mailbox(id) && (final(self).attached(id)
                    <==> old(self).attached(id)),
            r == Delivery::Enqueued ==> final(self).mailbox(recipient@) == old(self).mailbox(
                recipient@,
            ).push(message@) && !final(self).attached(recipient@),
            r == Delivery::Enqueued ==> forall|id: Seq<char>|
                id != recipient@ ==> final(self).mailbox(id) == old(self).mailbox(id)
                    && (final(self).attached(id) <==> old(self).attached(id)),
            forall|id: Seq<char>|
                (final(self).contains(id) <==> old(self).contains(id)) && (old(self).contains(id)
                    ==> final(self).rec(id) == old(self).rec(id)),
    {
        self.router.send(recipient, message)
    }

    /// Attaches a retrieve consumer: drains the identity's mailbox in FIFO
    /// order and installs a fresh live channel, atomically replacing any
    /// prior one. The drained messages come back in arrival order; the
    /// receiver half is the live stream.
    pub fn retrieve_messages(&mut self, identity: &String, capacity: usize) -> (r: (
        Vec<Message>,
        tokio::sync::mpsc::Receiver<Message>,
    ))
        requires
            old(self).wf(),
            capacity >= 1,
        ensures
            final(self).wf(),
            crate::router::msgs_view(r.0) == old(self).mailbox(identity@),
            final(self).mailbox(identity@).len() == 0,
            final(self).attached(identity@),
            forall|id: Seq<char>|
                id != identity@ ==> final(self).mailbox(id) == old(self).mailbox(id)
                    && (final(self).attached(id) <==> old(self).attached(id)),
            forall|id: Seq<char>|
                (final(self).contains(id) <==> old(self).contains(id)) && (old(self).contains(id)
                    ==> final(self).rec(id) == old(self).rec(id)),
    {
        self.router.retrieve(identity, capacity)
    }
}

} // verus!
