//! Laws of the store and router, proved over the same models their
//! contracts are stated in.
//!
//! One-time prekey consumption is [`spec_pop_otk`], the very pool
//! transition that `IdentityStore::fetch_bundle` ensures; a series of
//! fetches is [`spec_fetch_series`]. The mailbox laws are stated over the
//! sequences that `Router::send` and `Router::retrieve` ensure.

use crate::bundle::MessageView;
use crate::store::spec_pop_otk;
use vstd::prelude::*;
use vstd::seq_lib::*;

verus! {

/// The keys handed out by `n` successive fetches against a pool.
pub open spec fn spec_fetch_series(pool: Seq<Seq<u8>>, n: nat) -> Seq<Option<Seq<u8>>>
    decreases n,
{
    if n == 0 {
        Seq::empty()
    } else {
        seq![spec_pop_otk(pool).0] + spec_fetch_series(spec_pop_otk(pool).1, (n - 1) as nat)
    }
}

/// The shape of a fetch series: the `i`-th fetch hands out the pool's
/// `len - 1 - i`-th key while the pool lasts, and nothing afterwards.
pub proof fn lemma_fetch_series_shape(pool: Seq<Seq<u8>>, n: nat)
    ensures
        spec_fetch_series(pool, n).len() == n,
        forall|i: int|
            0 <= i < n && i < pool.len() ==> spec_fetch_series(pool, n)[i] == Some(
                pool[pool.len() - 1 - i],
            ),
        forall|i: int|
            pool.len() <= i < n ==> spec_fetch_series(pool, n)[i] is None,
    decreases n,
{
    if n > 0 {
        let (head, rest) = spec_pop_otk(pool);
        lemma_fetch_series_shape(rest, (n - 1) as nat);
        let series = spec_fetch_series(pool, n);
        let tail = spec_fetch_series(rest, (n - 1) as nat);
        assert(series == seq![head] + tail);
        assert(series[0] == head);
        assert forall|i: int| 1 <= i < n implies series[i] == tail[i - 1] by {
            assert((seq![head] + tail)[i] == tail[i - 1]);
        }
        if pool.len() > 0 {
            assert forall|i: int| 0 <= i < n && i < pool.len() implies series[i] == Some(
                pool[pool.len() - 1 - i],
            ) by {
                if i == 0 {
                    assert(series[0] == Some(pool.last()));
                } else {
                    assert(series[i] == tail[i - 1]);
                    assert(rest[rest.len() - 1 - (i - 1)] == pool[pool.len() - 1 - i]);
                }
            }
        }
    }
}

/// One-time prekey exclusivity: against a pool of `m` distinct keys, the
/// first `m` of `n >= m` fetches each hand out a key, every later fetch
/// hands out none, and no key is ever handed to two fetches.
pub proof fn lemma_otk_exclusivity(pool: Seq<Seq<u8>>, n: nat)
    requires
        pool.no_duplicates(),
    ensures
        spec_fetch_series(pool, n).len() == n,
        forall|i: int|
            0 <= i < n ==> (spec_fetch_series(pool, n)[i] is Some <==> i < pool.len()),
        forall|i: int, j: int|
            0 <= i < j < n && spec_fetch_series(pool, n)[i] is Some && spec_fetch_series(
                pool,
                n,
            )[j] is Some ==> spec_fetch_series(pool, n)[i].unwrap() != spec_fetch_series(
                pool,
                n,
            )[j].unwrap(),
{
    lemma_fetch_series_shape(pool, n);
    let series = spec_fetch_series(pool, n);
    assert forall|i: int, j: int|
        0 <= i < j < n && series[i] is Some && series[j] is Some implies series[i].unwrap()
        != series[j].unwrap() by {
        assert(i < pool.len() && j < pool.len());
        assert(series[i] == Some(pool[pool.len() - 1 - i]));
        assert(series[j] == Some(pool[pool.len() - 1 - j]));
        assert(pool[pool.len() - 1 - i] != pool[pool.len() - 1 - j]);
    }
}

/// Mailbox FIFO: when one send appends `m1` and a later send appends `m2`,
/// the drained mailbox holds `m1` at a strictly earlier position than `m2`,
/// whatever it held before.
pub proof fn lemma_mailbox_fifo(mb: Seq<MessageView>, m1: MessageView, m2: MessageView)
    ensures
        mb.push(m1).push(m2)[mb.len() as int] == m1,
        mb.push(m1).push(m2)[mb.len() as int + 1] == m2,
        mb.push(m1).push(m2).len() == mb.len() + 2,
{
    assert(mb.push(m1).push(m2)[mb.len() as int] == mb.push(m1)[mb.len() as int]);
}

/// Retrieve atomicity: a message the router accepted is delivered exactly
/// once. Enqueueing adds exactly one occurrence of it to the mailbox, and a
/// retrieve hands the whole mailbox over and leaves it empty — so whichever
/// side of a racing retrieve the enqueue lands on, the message shows up in
/// exactly one drain, exactly once.
pub proof fn lemma_retrieve_atomicity(mb: Seq<MessageView>, m: MessageView)
    ensures
        mb.push(m).to_multiset() == mb.to_multiset().insert(m),
        mb.push(m).to_multiset().count(m) == mb.to_multiset().count(m) + 1,
        Seq::<MessageView>::empty().to_multiset().count(m) == 0,
{
    broadcast use vstd::seq_lib::group_to_multiset_ensures;

    assert(mb.push(m) =~= mb + seq![m]);
    mb.to_multiset_ensures();
    assert(Seq::<MessageView>::empty().to_multiset() =~= vstd::multiset::Multiset::empty());
}

} // verus!
