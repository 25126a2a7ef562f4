//! The client's side of the protocol: the long-lived signing key, the
//! current signed-prekey secret, and the pool of one-time prekey secrets
//! keyed by their publics. A one-time prekey secret is wiped on first use:
//! looking it up removes it, so a replayed initial message fails to find it
//! again.

use crate::bundle::{copy_bytes, sign_bundle, spec_concat_keys, SignedPreKey, SignedPreKeys};
use crate::crypto::{
    ed25519_public, ed_pub_of, ed_sign_of, ed_verifies, random_bytes32, x25519_pub_of,
    x25519_public,
};
use crate::errors::ProtocolError;
use vstd::hash_map::StringHashMap;
use vstd::prelude::*;

verus! {

/// The view of the one-time prekey pool: (public, secret) pairs in
/// insertion order.
pub open spec fn pairs_view(v: Vec<(Vec<u8>, Vec<u8>)>) -> Seq<(Seq<u8>, Seq<u8>)> {
    Seq::new(v@.len(), |i: int| (v@[i].0@, v@[i].1@))
}

/// A client's secrets, held in memory.
#[derive(Debug)]
pub struct MemoryClient {
    identity_key: Vec<u8>,
    pre_key: Vec<u8>,
    one_time_pre_keys: Vec<(Vec<u8>, Vec<u8>)>,
}

impl MemoryClient {
    /// The Ed25519 signing key.
    pub closed spec fn ik(self) -> Seq<u8> {
        self.identity_key@
    }

    /// The current signed-prekey secret.
    pub closed spec fn pk(self) -> Seq<u8> {
        self.pre_key@
    }

    /// The one-time prekey pool, as (public, secret) pairs.
    pub closed spec fn otk_pairs(self) -> Seq<(Seq<u8>, Seq<u8>)> {
        pairs_view(self.one_time_pre_keys)
    }

    pub closed spec fn wf(self) -> bool {
        &&& self.identity_key@.len() == 32
        &&& self.pre_key@.len() == 32
        &&& forall|i: int|
            0 <= i < self.otk_pairs().len() ==> (#[trigger] self.otk_pairs()[i]).0.len() == 32
                && self.otk_pairs()[i].1.len() == 32
    }

    /// Creates a client with fresh random identity and prekey secrets and
    /// an empty one-time prekey pool. Fails with `Transient` only when the
    /// entropy source does.
    pub fn new() -> (r: Result<Self, ProtocolError>)
        ensures
            r is Ok ==> r.unwrap().wf() && r.unwrap().otk_pairs().len() == 0,
            r is Err ==> r.unwrap_err() == ProtocolError::Transient,
    {
        let identity_key = match random_bytes32() {
            Some(v) => v,
            None => {
                return Err(ProtocolError::Transient);
            },
        };
        let pre_key = match random_bytes32() {
            Some(v) => v,
            None => {
                return Err(ProtocolError::Transient);
            },
        };
        let client = MemoryClient { identity_key, pre_key, one_time_pre_keys: Vec::new() };
        proof {
            assert(client.otk_pairs() =~= Seq::<(Seq<u8>, Seq<u8>)>::empty());
        }
        Ok(client)
    }

    /// An owned copy of the signing key.
    pub fn get_identity_key(&self) -> (r: Result<Vec<u8>, ProtocolError>)
        ensures
            r is Ok && r.unwrap()@ == self.ik(),
    {
        Ok(copy_bytes(&self.identity_key))
    }

    /// The Ed25519 verifying key matching the signing key: what the client
    /// registers with the server as its identity key.
    pub fn get_verifying_key(&self) -> (r: Result<Vec<u8>, ProtocolError>)
        requires
            self.wf(),
        ensures
            r is Ok,
            r.unwrap()@ == ed_pub_of(self.ik()),
            r.unwrap()@.len() == 32,
    {
        Ok(ed25519_public(self.identity_key.as_slice()))
    }

    /// An owned copy of the current prekey secret.
    pub fn get_pre_key(&self) -> (r: Result<Vec<u8>, ProtocolError>)
        ensures
            r is Ok && r.unwrap()@ == self.pk(),
    {
        Ok(copy_bytes(&self.pre_key))
    }

    /// The client's current signed prekey for publication: the X25519
    /// public of the prekey secret, signed under the identity key with the
    /// one-element-batch rule.
    pub fn get_spk(&self) -> (r: Result<SignedPreKey, ProtocolError>)
        requires
            self.wf(),
        ensures
            r is Ok,
            r.unwrap()@.wf(),
            r.unwrap()@.pre_key == x25519_pub_of(self.pk()),
            r.unwrap()@.signature == ed_sign_of(self.ik(), x25519_pub_of(self.pk())),
            ed_verifies(ed_pub_of(self.ik()), x25519_pub_of(self.pk()), r.unwrap()@.signature),
    {
        let pre_key_pub = x25519_public(self.pre_key.as_slice());
        let mut batch: Vec<Vec<u8>> = Vec::new();
        batch.push(copy_bytes(&pre_key_pub));
        proof {
            assert(crate::bundle::keys_view(batch) =~= seq![pre_key_pub@]);
            assert(seq![pre_key_pub@].drop_last() =~= Seq::<Seq<u8>>::empty());
            assert(spec_concat_keys(Seq::<Seq<u8>>::empty()) =~= Seq::<u8>::empty());
            assert(spec_concat_keys(seq![pre_key_pub@]) =~= pre_key_pub@);
        }
        let signature = sign_bundle(&self.identity_key, &batch);
        Ok(SignedPreKey { pre_key: pre_key_pub, signature })
    }

    /// Generates `num_keys` fresh one-time prekey pairs, keeps the secrets
    /// keyed by their publics, and hands back the publics under one
    /// aggregate signature. On an entropy failure nothing changes.
    pub fn add_one_time_keys(&mut self, num_keys: u32) -> (r: Result<
        SignedPreKeys,
        ProtocolError,
    >)
        requires
            old(self).wf(),
        ensures
            final(self).wf(),
            r is Err ==> r.unwrap_err() == ProtocolError::Transient && *final(self) == *old(self),
            final(self).ik() == old(self).ik() && final(self).pk() == old(self).pk(),
            r is Ok ==> {
                let batch = r.unwrap()@;
                let n = num_keys as int;
                &&& batch.wf()
                &&& batch.pre_keys.len() == n
                &&& batch.signature == ed_sign_of(old(self).ik(), spec_concat_keys(batch.pre_keys))
                &&& ed_verifies(
                    ed_pub_of(old(self).ik()),
                    spec_concat_keys(batch.pre_keys),
                    batch.signature,
                )
                &&& final(self).otk_pairs().len() == old(self).otk_pairs().len() + n
                &&& final(self).otk_pairs().take(old(self).otk_pairs().len() as int) == old(
                    self,
                ).otk_pairs()
                &&& forall|i: int|
                    0 <= i < n ==> {
                        let pair = #[trigger] final(self).otk_pairs()[old(
                            self,
                        ).otk_pairs().len() + i];
                        pair.0 == batch.pre_keys[i] && batch.pre_keys[i] == x25519_pub_of(pair.1)
                    }
            },
    {
        let mut publics: Vec<Vec<u8>> = Vec::new();
        let mut secrets: Vec<Vec<u8>> = Vec::new();
        let mut i: usize = 0;
        #[verifier::loop_isolation(false)]
        while i < num_keys as usize
            invariant
                0 <= i <= num_keys as usize,
                publics@.len() == i,
                secrets@.len() == i,
                forall|j: int|
                    0 <= j < i ==> (#[trigger] secrets@[j])@.len() == 32 && publics@[j]@.len()
                        == 32 && publics@[j]@ == x25519_pub_of(secrets@[j]@),
            decreases num_keys as usize - i,
        {
            let sec = match random_bytes32() {
                Some(v) => v,
                None => {
                    return Err(ProtocolError::Transient);
                },
            };
            let public = x25519_public(sec.as_slice());
            publics.push(public);
            secrets.push(sec);
            i = i + 1;
        }
        let signature = sign_bundle(&self.identity_key, &publics);
        let ghost prior_pairs = self.otk_pairs();
        let mut k: usize = 0;
        #[verifier::loop_isolation(false)]
        while k < publics.len()
            invariant
                0 <= k <= publics@.len(),
                self.identity_key@ == old(self).ik(),
                self.pre_key@ == old(self).pk(),
                self.otk_pairs().len() == prior_pairs.len() + k,
                forall|j: int|
                    0 <= j < prior_pairs.len() ==> #[trigger] self.otk_pairs()[j]
                        == prior_pairs[j],
                forall|j: int|
                    0 <= j < k ==> (#[trigger] self.otk_pairs()[prior_pairs.len() + j]).0
                        == publics@[j]@ && self.otk_pairs()[prior_pairs.len() + j].1
                        == secrets@[j]@,
            decreases publics@.len() - k,
        {
            let ghost prev_view = self.one_time_pre_keys@;
            let ghost prev_pairs = self.otk_pairs();
            let public = copy_bytes(&publics[k]);
            let sec = copy_bytes(&secrets[k]);
            self.one_time_pre_keys.push((public, sec));
            proof {
                assert(self.one_time_pre_keys@.len() == prev_view.len() + 1);
                assert forall|j: int| 0 <= j < prev_pairs.len() implies #[trigger] self
                    .otk_pairs()[j] == prev_pairs[j] by {
                    assert(self.one_time_pre_keys@[j] == prev_view[j]);
                    assert(prev_pairs[j] == (prev_view[j].0@, prev_view[j].1@));
                }
                assert(self.otk_pairs()[prev_pairs.len() as int] == (public@, sec@));
            }
            k = k + 1;
        }
        proof {
            assert(self.otk_pairs().take(prior_pairs.len() as int) =~= prior_pairs);
            assert forall|i2: int| 0 <= i2 < self.otk_pairs().len() implies (#[trigger] self
                .otk_pairs()[i2]).0.len() == 32 && self.otk_pairs()[i2].1.len() == 32 by {
                if i2 < prior_pairs.len() {
                    assert(old(self).otk_pairs()[i2] == prior_pairs[i2]);
                } else {
                    let j = i2 - prior_pairs.len();
                    assert((self.otk_pairs()[prior_pairs.len() + j]).0 == publics@[j]@);
                    assert(self.otk_pairs()[prior_pairs.len() + j].1 == secrets@[j]@);
                }
            }
            assert(publics@.len() == num_keys as int);
            assert forall|j: int| 0 <= j < num_keys as int implies (#[trigger] crate::bundle::keys_view(
                publics,
            )[j]).len() == 32 by {
                assert(crate::bundle::keys_view(publics)[j] == publics@[j]@);
                assert(publics@[j]@ == x25519_pub_of(secrets@[j]@));
            }
        }
        Ok(SignedPreKeys { pre_keys: publics, signature })
    }

    /// Looks up and wipes the one-time prekey secret matching a public:
    /// the secret is removed from the pool as it is returned, so a second
    /// lookup for the same public fails with `UnknownOtk`.
    pub fn fetch_wipe_one_time_secret_key(&mut self, one_time_key: &Vec<u8>) -> (r: Result<
        Vec<u8>,
        ProtocolError,
    >)
        requires
            old(self).wf(),
        ensures
            final(self).wf(),
            final(self).ik() == old(self).ik() && final(self).pk() == old(self).pk(),
            r is Ok <==> exists|j: int|
                0 <= j < old(self).otk_pairs().len() && (#[trigger] old(self).otk_pairs()[j]).0
                    == one_time_key@,
            r is Err ==> r.unwrap_err() == ProtocolError::UnknownOtk && *final(self) == *old(self),
            r is Ok ==> exists|j: int|
                0 <= j < old(self).otk_pairs().len() && (#[trigger] old(self).otk_pairs()[j]).0
                    == one_time_key@ && r.unwrap()@ == old(self).otk_pairs()[j].1
                    && final(self).otk_pairs() == old(self).otk_pairs().remove(j),
    {
        let mut i: usize = 0;
        #[verifier::loop_isolation(false)]
        while i < self.one_time_pre_keys.len()
            invariant
                0 <= i <= self.one_time_pre_keys@.len(),
                *self == *old(self),
                forall|j: int|
                    0 <= j < i ==> (#[trigger] old(self).otk_pairs()[j]).0 != one_time_key@,
            decreases self.one_time_pre_keys@.len() - i,
        {
            if bytes_eq(&self.one_time_pre_keys[i].0, one_time_key) {
                let ghost pre_pairs = self.otk_pairs();
                let ghost pre_vec = self.one_time_pre_keys@;
                let pair = self.one_time_pre_keys.remove(i);
                proof {
                    assert(pre_pairs == old(self).otk_pairs());
                    assert(pre_pairs[i as int].0 == pre_vec[i as int].0@);
                    assert(pre_pairs[i as int].1 == pre_vec[i as int].1@);
                    assert(pair == pre_vec[i as int]);
                    assert forall|j: int| 0 <= j < self.otk_pairs().len() implies #[trigger] self
                        .otk_pairs()[j] == pre_pairs.remove(i as int)[j] by {
                        if j < i {
                            assert(self.one_time_pre_keys@[j] == pre_vec[j]);
                        } else {
                            assert(self.one_time_pre_keys@[j] == pre_vec[j + 1]);
                        }
                    }
                    assert(self.otk_pairs() =~= pre_pairs.remove(i as int));
                    assert((i as int) < old(self).otk_pairs().len());
                    assert(old(self).otk_pairs()[i as int].0 == one_time_key@);
                    assert(pair.1@ == old(self).otk_pairs()[i as int].1);
                }
                return Ok(pair.1);
            }
            i = i + 1;
        }
        Err(ProtocolError::UnknownOtk)
    }
}

/// Compares two byte strings.
pub fn bytes_eq(a: &Vec<u8>, b: &Vec<u8>) -> (r: bool)
    ensures
        r <==> a@ == b@,
{
    if a.len() != b.len() {
        return false;
    }
    let mut i: usize = 0;
    while i < a.len()
        invariant
            0 <= i <= a@.len(),
            a@.len() == b@.len(),
            forall|j: int| 0 <= j < i ==> a@[j] == b@[j],
        decreases a@.len() - i,
    {
        if a[i] != b[i] {
            return false;
        }
        i = i + 1;
    }
    proof {
        assert(a@ =~= b@);
    }
    true
}

/// Per-peer session keys derived from completed key agreements, keyed by
/// the peer's identity.
pub struct SessionKeys {
    session_keys: StringHashMap<Vec<u8>>,
}

impl SessionKeys {
    /// The stored key for a peer, if any.
    pub closed spec fn key(self, id: Seq<char>) -> Option<Seq<u8>> {
        if self.session_keys@.contains_key(id) {
            Some(self.session_keys@[id]@)
        } else {
            None
        }
    }

    /// Creates an empty key store.
    pub fn new() -> (r: Self)
        ensures
            forall|id: Seq<char>| #[trigger] r.key(id) is None,
    {
        SessionKeys { session_keys: StringHashMap::new() }
    }

    /// Stores the session key agreed with a peer.
    pub fn set_session_key(&mut self, recipient_identity: String, secret_key: &Vec<u8>)
        ensures
            final(self).key(recipient_identity@) == Some(secret_key@),
            forall|id: Seq<char>|
                id != recipient_identity@ ==> final(self).key(id) == old(self).key(id),
    {
        self.session_keys.insert(recipient_identity, copy_bytes(secret_key));
    }

    /// The encryption key for a peer: the stored session key, or
    /// `UnknownIdentity` when no agreement with that peer is on file.
    pub fn get_encryption_key(&self, recipient_identity: &String) -> (r: Result<
        Vec<u8>,
        ProtocolError,
    >)
        ensures
            r is Ok <==> self.key(recipient_identity@) is Some,
            r is Ok ==> Some(r.unwrap()@) == self.key(recipient_identity@),
            r is Err ==> r.unwrap_err() == ProtocolError::UnknownIdentity,
    {
        match self.session_keys.get(recipient_identity.as_str()) {
            Some(k) => Ok(copy_bytes(k)),
            None => Err(ProtocolError::UnknownIdentity),
        }
    }

    /// Forgets the session key for a peer.
    pub fn destroy_session_key(&mut self, peer: &String)
        ensures
            final(self).key(peer@) is None,
            forall|id: Seq<char>| id != peer@ ==> final(self).key(id) == old(self).key(id),
    {
        self.session_keys.remove(peer.as_str());
    }
}

} // verus!
