//! The identity store: a keyed mapping from identity to its long-lived
//! identity key, current signed prekey and one-time prekey pool, with
//! exactly-once consumption of one-time prekeys.
//!
//! Documented design choice: the one-time prekey pool is preserved across a
//! signed-prekey rotation. One-time prekeys are signed under the identity's
//! long-lived identity key, not under the signed prekey, so they stay valid
//! when the signed prekey is replaced.

use crate::bundle::{
    copy_bytes, keys_view, spec_concat_keys, verify_bundle, PreKeyBundle, SignedPreKey,
    SignedPreKeyView, SignedPreKeys,
};
use crate::crypto::ed_verifies;
use crate::errors::ProtocolError;
use vstd::hash_map::StringHashMap;
use vstd::prelude::*;

verus! {

/// One fetch against a one-time prekey pool: an empty pool is untouched
/// and yields nothing; otherwise the last key leaves the pool and is handed
/// out.
pub open spec fn spec_pop_otk(pool: Seq<Seq<u8>>) -> (Option<Seq<u8>>, Seq<Seq<u8>>) {
    if pool.len() == 0 {
        (None, pool)
    } else {
        (Some(pool.last()), pool.drop_last())
    }
}

/// Everything the server holds for one identity.
pub struct IdentityRecord {
    pub identity_key: Vec<u8>,
    pub spk: SignedPreKey,
    pub otks: Vec<Vec<u8>>,
}

/// The mathematical shape of an [`IdentityRecord`].
pub ghost struct IdentityRecordView {
    pub identity_key: Seq<u8>,
    pub spk: SignedPreKeyView,
    pub otks: Seq<Seq<u8>>,
}

impl View for IdentityRecord {
    type V = IdentityRecordView;

    open spec fn view(&self) -> IdentityRecordView {
        IdentityRecordView {
            identity_key: self.identity_key@,
            spk: self.spk@,
            otks: keys_view(self.otks),
        }
    }
}

impl IdentityRecordView {
    pub open spec fn wf(self) -> bool {
        &&& self.identity_key.len() == 32
        &&& self.spk.wf()
        &&& crate::bundle::all_keys32(self.otks)
    }
}

/// The server-side owner of per-identity key material. It never hands out a
/// reference into its map: every returned value is an owned copy.
pub struct IdentityStore {
    records: StringHashMap<IdentityRecord>,
}

impl IdentityStore {
    /// The identity is registered.
    pub closed spec fn contains(self, id: Seq<char>) -> bool {
        self.records@.contains_key(id)
    }

    /// The record of a registered identity.
    pub closed spec fn rec(self, id: Seq<char>) -> IdentityRecordView {
        self.records@[id]@
    }

    /// Every record of the store is well formed.
    pub closed spec fn wf(self) -> bool {
        forall|id: Seq<char>|
            self.records@.contains_key(id) ==> (#[trigger] self.records@[id])@.wf()
    }

    /// Creates an empty store.
    pub fn new() -> (r: Self)
        ensures
            r.wf(),
            forall|id: Seq<char>| !r.contains(id),
    {
        IdentityStore { records: StringHashMap::new() }
    }

    /// Registers or rotates an identity's signed prekey: verifies `spk`
    /// under `ik` as a one-element batch and upserts the pair. A new
    /// identity starts with an empty one-time prekey pool; an existing
    /// identity keeps its pool. On a bad signature nothing changes.
    pub fn set_spk(&mut self, identity: &String, ik: Vec<u8>, spk: SignedPreKey) -> (r: Result<
        (),
        ProtocolError,
    >)
        requires
            old(self).wf(),
            ik@.len() == 32,
            spk@.wf(),
        ensures
            final(self).wf(),
            r is Ok <==> ed_verifies(ik@, spk@.pre_key, spk@.signature),
            r is Err ==> r.unwrap_err() == ProtocolError::BadSignature && *final(self) == *old(
                self,
            ),
            r is Ok ==> final(self).contains(identity@) && final(self).rec(identity@)
                == (IdentityRecordView {
                identity_key: ik@,
                spk: spk@,
                otks: if old(self).contains(identity@) {
                    old(self).rec(identity@).otks
                } else {
                    Seq::empty()
                },
            }),
            forall|id: Seq<char>|
                id != identity@ ==> (final(self).contains(id) <==> old(self).contains(id)),
            forall|id: Seq<char>|
                id != identity@ && old(self).contains(id) ==> final(self).rec(id) == old(
                    self,
                ).rec(id),
    {
        let mut batch: Vec<Vec<u8>> = Vec::new();
        batch.push(copy_bytes(&spk.pre_key));
        proof {
            assert(keys_view(batch) =~= seq![spk@.pre_key]);
            assert(seq![spk@.pre_key].drop_last() =~= Seq::<Seq<u8>>::empty());
            assert(spec_concat_keys(Seq::<Seq<u8>>::empty()) =~= Seq::<u8>::empty());
            assert(spec_concat_keys(seq![spk@.pre_key]) =~= spk@.pre_key);
        }
        match verify_bundle(&ik, &batch, &spk.signature) {
            Ok(()) => (),
            Err(e) => {
                return Err(e);
            },
        }
        let otks: Vec<Vec<u8>> = match self.records.get(identity.as_str()) {
            Some(rec) => copy_keys(&rec.otks),
            None => Vec::new(),
        };
        proof {
            if old(self).contains(identity@) {
                assert(keys_view(otks) == old(self).rec(identity@).otks);
            } else {
                assert(keys_view(otks) =~= Seq::<Seq<u8>>::empty());
            }
        }
        let record = IdentityRecord { identity_key: ik, spk, otks };
        self.records.insert(copy_string(identity), record);
        Ok(())
    }

    /// Appends a verified batch of one-time prekeys to an identity's pool.
    /// An unregistered identity is rejected with `UnknownIdentity`; a batch
    /// whose aggregate signature does not verify under `ik`, with
    /// `BadSignature`. On either rejection nothing changes.
    pub fn publish_otk_bundle(&mut self, identity: &String, ik: Vec<u8>, otk_bundle: SignedPreKeys) -> (r:
        Result<(), ProtocolError>)
        requires
            old(self).wf(),
            ik@.len() == 32,
            otk_bundle@.wf(),
        ensures
            final(self).wf(),
            r is Ok <==> old(self).contains(identity@) && ed_verifies(
                ik@,
                spec_concat_keys(otk_bundle@.pre_keys),
                otk_bundle@.signature,
            ),
            !old(self).contains(identity@) ==> r is Err && r.unwrap_err()
                == ProtocolError::UnknownIdentity,
            old(self).contains(identity@) && !ed_verifies(
                ik@,
                spec_concat_keys(otk_bundle@.pre_keys),
                otk_bundle@.signature,
            ) ==> r is Err && r.unwrap_err() == ProtocolError::BadSignature,
            r is Err ==> *final(self) == *old(self),
            r is Ok ==> final(self).contains(identity@) && final(self).rec(identity@)
                == (IdentityRecordView {
                identity_key: old(self).rec(identity@).identity_key,
                spk: old(self).rec(identity@).spk,
                otks: old(self).rec(identity@).otks + otk_bundle@.pre_keys,
            }),
            forall|id: Seq<char>|
                id != identity@ ==> (final(self).contains(id) <==> old(self).contains(id)),
            forall|id: Seq<char>|
                id != identity@ && old(self).contains(id) ==> final(self).rec(id) == old(
                    self,
                ).rec(id),
    {
        if !self.records.contains_key(identity.as_str()) {
            return Err(ProtocolError::UnknownIdentity);
        }
        match verify_bundle(&ik, &otk_bundle.pre_keys, &otk_bundle.signature) {
            Ok(()) => (),
            Err(e) => {
                return Err(e);
            },
        }
        let (old_ik, old_spk, mut otks): (Vec<u8>, SignedPreKey, Vec<Vec<u8>>) = {
            let rec = self.records.get(identity.as_str()).unwrap();
            (copy_bytes(&rec.identity_key), copy_spk(&rec.spk), copy_keys(&rec.otks))
        };
        let mut i: usize = 0;
        proof {
            assert(keys_view(otks) =~= old(self).rec(identity@).otks
                + otk_bundle@.pre_keys.take(0));
        }
        while i < otk_bundle.pre_keys.len()
            invariant
                0 <= i <= otk_bundle.pre_keys.len(),
                keys_view(otks) == old(self).rec(identity@).otks + otk_bundle@.pre_keys.take(
                    i as int,
                ),
            decreases otk_bundle.pre_keys.len() - i,
        {
            let ghost base = old(self).rec(identity@).otks;
            let ghost prev_view = otks@;
            let ghost prev_keys = keys_view(otks);
            otks.push(copy_bytes(&otk_bundle.pre_keys[i]));
            proof {
                assert(prev_keys.len() == prev_view.len());
                assert(prev_keys.len() == base.len() + i);
                assert(otks@.len() == base.len() + i + 1);
                assert forall|j: int| 0 <= j < base.len() + i + 1 implies keys_view(otks)[j]
                    == (base + otk_bundle@.pre_keys.take(i + 1))[j] by {
                    assert(keys_view(otks)[j] == otks@[j]@);
                    if j < base.len() + i {
                        assert(otks@[j] == prev_view[j]);
                        assert(prev_keys[j] == prev_view[j]@);
                        assert(prev_keys[j] == (base + otk_bundle@.pre_keys.take(i as int))[j]);
                    }
                }
                assert(keys_view(otks) =~= base + otk_bundle@.pre_keys.take(i + 1));
            }
            i = i + 1;
        }
        proof {
            assert(otk_bundle@.pre_keys.take(otk_bundle@.pre_keys.len() as int)
                =~= otk_bundle@.pre_keys);
        }
        let record = IdentityRecord { identity_key: old_ik, spk: old_spk, otks };
        self.records.insert(copy_string(identity), record);
        Ok(())
    }

    /// Reads an identity's bundle and atomically consumes one one-time
    /// prekey: the returned key is removed from the pool in the same
    /// exclusive operation, so no one-time prekey is ever handed to two
    /// senders. An empty pool yields a bundle without a one-time prekey;
    /// an unregistered identity is rejected with `UnknownIdentity`.
    pub fn fetch_bundle(&mut self, identity: &String) -> (r: Result<PreKeyBundle, ProtocolError>)
        requires
            old(self).wf(),
        ensures
            final(self).wf(),
            r is Ok <==> old(self).contains(identity@),
            r is Err ==> r.unwrap_err() == ProtocolError::UnknownIdentity && *final(self) == *old(
                self,
            ),
            r is Ok ==> {
                let b = r.unwrap()@;
                let prior = old(self).rec(identity@);
                &&& b.wf()
                &&& b.identity_key == prior.identity_key
                &&& b.spk == prior.spk
                &&& b.otk == spec_pop_otk(prior.otks).0
                &&& final(self).rec(identity@) == (IdentityRecordView {
                    identity_key: prior.identity_key,
                    spk: prior.spk,
                    otks: spec_pop_otk(prior.otks).1,
                })
            },
            r is Ok ==> final(self).contains(identity@),
            forall|id: Seq<char>|
                id != identity@ ==> (final(self).contains(id) <==> old(self).contains(id)),
            forall|id: Seq<char>|
                id != identity@ && old(self).contains(id) ==> final(self).rec(id) == old(
                    self,
                ).rec(id),
    {
        if !self.records.contains_key(identity.as_str()) {
            return Err(ProtocolError::UnknownIdentity);
        }
        let (ik, spk, mut otks): (Vec<u8>, SignedPreKey, Vec<Vec<u8>>) = {
            let rec = self.records.get(identity.as_str()).unwrap();
            (copy_bytes(&rec.identity_key), copy_spk(&rec.spk), copy_keys(&rec.otks))
        };
        let ghost prior = old(self).rec(identity@);
        let otk: Option<Vec<u8>> = if otks.len() > 0 {
            let ghost pre_view = otks@;
            let ghost pre_keys = keys_view(otks);
            let k = otks.pop().unwrap();
            proof {
                assert(pre_keys.len() == pre_view.len());
                assert(pre_keys == prior.otks);
                assert(k@ == pre_view[pre_view.len() - 1]@);
                assert(k@ == pre_keys[pre_keys.len() - 1]);
                assert(k@ == prior.otks.last());
                assert(otks@.len() == pre_view.len() - 1);
                assert forall|j: int| 0 <= j < pre_keys.len() - 1 implies keys_view(otks)[j]
                    == prior.otks.drop_last()[j] by {
                    assert(keys_view(otks)[j] == otks@[j]@);
                    assert(otks@[j] == pre_view[j]);
                    assert(pre_keys[j] == pre_view[j]@);
                }
                assert(keys_view(otks) =~= prior.otks.drop_last());
            }
            Some(k)
        } else {
            None
        };
        let bundle = PreKeyBundle {
            identity_key: copy_bytes(&ik),
            otk: match &otk {
                Some(k) => Some(copy_bytes(k)),
                None => None,
            },
            spk: copy_spk(&spk),
        };
        let record = IdentityRecord { identity_key: ik, spk, otks };
        self.records.insert(copy_string(identity), record);
        Ok(bundle)
    }
}

/// Copies a signed prekey.
pub fn copy_spk(s: &SignedPreKey) -> (r: SignedPreKey)
    ensures
        r@ == s@,
{
    SignedPreKey { pre_key: copy_bytes(&s.pre_key), signature: copy_bytes(&s.signature) }
}

/// Copies a list of keys.
pub fn copy_keys(v: &Vec<Vec<u8>>) -> (r: Vec<Vec<u8>>)
    ensures
        keys_view(r) == keys_view(*v),
{
    let mut out: Vec<Vec<u8>> = Vec::new();
    let mut i: usize = 0;
    proof {
        assert(keys_view(out) =~= keys_view(*v).take(0));
    }
    while i < v.len()
        invariant
            0 <= i <= v.len(),
            keys_view(out) == keys_view(*v).take(i as int),
        decreases v.len() - i,
    {
        let ghost prev_view = out@;
        let ghost prev_keys = keys_view(out);
        out.push(copy_bytes(&v[i]));
        proof {
            assert(prev_keys.len() == prev_view.len());
            assert(prev_keys.len() == i as int);
            assert(out@.len() == i + 1);
            assert forall|j: int| 0 <= j < i + 1 implies keys_view(out)[j] == keys_view(
                *v,
            ).take(i + 1)[j] by {
                assert(keys_view(out)[j] == out@[j]@);
                if j < i {
                    assert(out@[j] == prev_view[j]);
                    assert(prev_keys[j] == prev_view[j]@);
                    assert(prev_keys[j] == keys_view(*v).take(i as int)[j]);
                }
            }
            assert(keys_view(out) =~= keys_view(*v).take(i + 1));
        }
        i = i + 1;
    }
    proof {
        assert(keys_view(*v).take(v@.len() as int) =~= keys_view(*v));
    }
    out
}

/// Copies an identity string.
pub fn copy_string(s: &String) -> (r: String)
    ensures
        r@ == s@,
{
    s.as_str().to_owned()
}

} // verus!
