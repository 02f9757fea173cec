//! Full-state replay semantics.
//!
//! Every update a feed emits carries the complete current state of the
//! affected item, never a delta. The consumer's view of a feed is therefore
//! the map obtained by replaying the snapshot and then each update in order,
//! where an update simply overwrites its item's entry. Lag tolerance rests
//! on this: a consumer that missed every update for an item except the last
//! one ends in exactly the same per-item state as one that saw them all.

use vstd::prelude::*;

verus! {

/// The per-item state after replaying `updates` in order over `init`.
/// Each update `(key, state)` overwrites the entry of its item.
pub open spec fn replay<K, V>(init: Map<K, V>, updates: Seq<(K, V)>) -> Map<K, V>
    decreases updates.len(),
{
    if updates.len() == 0 {
        init
    } else {
        replay(init.insert(updates[0].0, updates[0].1), updates.drop_first())
    }
}

/// Whether some update in `updates` concerns the item `k`.
pub open spec fn has_update<K, V>(updates: Seq<(K, V)>, k: K) -> bool {
    exists|i: int| 0 <= i < updates.len() && updates[i].0 == k
}

/// The payload of the last update for item `k`.
pub open spec fn last_update<K, V>(updates: Seq<(K, V)>, k: K) -> V
    recommends
        has_update(updates, k),
    decreases updates.len(),
{
    if updates.len() == 0 {
        arbitrary()
    } else if has_update(updates.drop_first(), k) {
        last_update(updates.drop_first(), k)
    } else if updates[0].0 == k {
        updates[0].1
    } else {
        arbitrary()
    }
}

/// `updates` thinned to only the last update of each item, in order.
pub open spec fn last_updates_only<K, V>(updates: Seq<(K, V)>) -> Seq<(K, V)>
    decreases updates.len(),
{
    if updates.len() == 0 {
        Seq::empty()
    } else if has_update(updates.drop_first(), updates[0].0) {
        last_updates_only(updates.drop_first())
    } else {
        seq![updates[0]] + last_updates_only(updates.drop_first())
    }
}

/// An item is updated by a non-empty sequence exactly when the first update
/// concerns it or a later one does.
proof fn lemma_has_update_unfold<K, V>(s: Seq<(K, V)>, k: K)
    requires
        s.len() > 0,
    ensures
        has_update(s, k) <==> (s[0].0 == k || has_update(s.drop_first(), k)),
{
    if has_update(s, k) {
        let i = choose|i: int| 0 <= i < s.len() && s[i].0 == k;
        if i > 0 {
            assert(s.drop_first()[i - 1].0 == k);
        }
    }
    if has_update(s.drop_first(), k) {
        let i = choose|i: int| 0 <= i < s.drop_first().len() && s.drop_first()[i].0 == k;
        assert(s[i + 1].0 == k);
    }
    if s[0].0 == k {
        assert(0 <= 0 < s.len() && s[0].0 == k);
    }
}

/// Characterization of replay: an updated item ends in the state of its
/// last update; an item never updated keeps its initial state.
pub proof fn lemma_replay_characterization<K, V>(init: Map<K, V>, updates: Seq<(K, V)>)
    ensures
        forall|k: K|
            has_update(updates, k) ==> #[trigger] replay(init, updates).contains_key(k) && replay(
                init,
                updates,
            )[k] == last_update(updates, k),
        forall|k: K|
            !has_update(updates, k) ==> (#[trigger] replay(init, updates).contains_key(k)
                <==> init.contains_key(k)) && (init.contains_key(k) ==> replay(init, updates)[k]
                == init[k]),
    decreases updates.len(),
{
    if updates.len() > 0 {
        let k0 = updates[0].0;
        let v0 = updates[0].1;
        let rest = updates.drop_first();
        let init2 = init.insert(k0, v0);
        lemma_replay_characterization(init2, rest);
        assert(replay(init, updates) == replay(init2, rest));
        assert forall|k: K| has_update(updates, k) implies #[trigger] replay(
            init,
            updates,
        ).contains_key(k) && replay(init, updates)[k] == last_update(updates, k) by {
            lemma_has_update_unfold(updates, k);
            if has_update(rest, k) {
                assert(replay(init2, rest).contains_key(k) && replay(init2, rest)[k]
                    == last_update(rest, k));
                assert(last_update(updates, k) == last_update(rest, k));
            } else {
                assert(k0 == k);
                assert(replay(init2, rest).contains_key(k) <==> init2.contains_key(k));
                assert(init2.contains_key(k) && init2[k] == v0);
                assert(replay(init2, rest)[k] == init2[k]);
                assert(last_update(updates, k) == v0);
            }
        }
        assert forall|k: K| !has_update(updates, k) implies ((#[trigger] replay(
            init,
            updates,
        ).contains_key(k) <==> init.contains_key(k)) && (init.contains_key(k) ==> replay(
            init,
            updates,
        )[k] == init[k])) by {
            lemma_has_update_unfold(updates, k);
            assert(k0 != k && !has_update(rest, k));
            assert(replay(init2, rest).contains_key(k) <==> init2.contains_key(k));
            assert(init2.contains_key(k) <==> init.contains_key(k));
            if init.contains_key(k) {
                assert(init2[k] == init[k]);
                assert(replay(init2, rest)[k] == init2[k]);
            }
        }
    }
}

/// Thinning never invents or loses items, and keeps each item's last state.
proof fn lemma_last_updates_only_same<K, V>(s: Seq<(K, V)>)
    ensures
        forall|k: K| #[trigger]
            has_update(last_updates_only(s), k) <==> has_update(s, k),
        forall|k: K| #[trigger]
            has_update(s, k) ==> last_update(last_updates_only(s), k) == last_update(s, k),
    decreases s.len(),
{
    if s.len() > 0 {
        let k0 = s[0].0;
        let rest = s.drop_first();
        lemma_last_updates_only_same(rest);
        assert forall|k: K| true implies (has_update(s, k) <==> (k0 == k || has_update(
            rest,
            k,
        ))) by {
            lemma_has_update_unfold(s, k);
        }
        if has_update(rest, k0) {
            assert(last_updates_only(s) == last_updates_only(rest));
        } else {
            let lu = last_updates_only(s);
            assert(lu == seq![s[0]] + last_updates_only(rest));
            assert(lu.len() > 0 && lu[0] == s[0]);
            assert(lu.drop_first() =~= last_updates_only(rest));
            assert forall|k: K| true implies (has_update(lu, k) <==> (k0 == k || has_update(
                last_updates_only(rest),
                k,
            ))) by {
                lemma_has_update_unfold(lu, k);
            }
        }
    }
}

/// Law (idempotence under lag): replaying only the last update for each
/// item yields the same final per-item state as replaying every update,
/// because each update carries the item's full state.
pub proof fn lemma_lag_replay_equivalent<K, V>(init: Map<K, V>, updates: Seq<(K, V)>)
    ensures
        replay(init, updates) == replay(init, last_updates_only(updates)),
{
    let thin = last_updates_only(updates);
    lemma_replay_characterization(init, updates);
    lemma_replay_characterization(init, thin);
    lemma_last_updates_only_same(updates);
    assert(replay(init, updates) =~= replay(init, thin));
}

/// Looks up the final state of one item after a replay: the payload of the
/// last update that concerns it, or its entry in the initial snapshot when
/// no update does, or nothing when the item is absent from both.
pub fn final_item_state<'a, V>(
    init: &'a Vec<(u64, V)>,
    updates: &'a Vec<(u64, V)>,
    key: u64,
) -> (r: Option<&'a V>)
    ensures
        match r {
            Some(v) => replay(replay(Map::<u64, V>::empty(), init@), updates@).contains_key(key)
                && *v == replay(replay(Map::<u64, V>::empty(), init@), updates@)[key],
            None => !replay(replay(Map::<u64, V>::empty(), init@), updates@).contains_key(key),
        },
{
    let mut i: usize = updates.len();
    while i > 0
        invariant
            i <= updates@.len(),
            forall|j: int| i <= j < updates@.len() ==> (#[trigger] updates@[j]).0 != key,
        decreases i,
    {
        i = i - 1;
        if updates[i].0 == key {
            proof {
                lemma_replay_characterization(replay(Map::<u64, V>::empty(), init@), updates@);
                lemma_last_update_at(updates@, key, i as int);
                assert(replay(replay(Map::<u64, V>::empty(), init@), updates@).contains_key(key));
                assert(replay(replay(Map::<u64, V>::empty(), init@), updates@)[key] == updates@[
                    i as int
                ].1);
            }
            return Some(&updates[i].1);
        }
    }
    assert(!has_update(updates@, key));
    let mut i: usize = init.len();
    while i > 0
        invariant
            i <= init@.len(),
            forall|j: int| i <= j < init@.len() ==> (#[trigger] init@[j]).0 != key,
            !has_update(updates@, key),
        decreases i,
    {
        i = i - 1;
        if init[i].0 == key {
            proof {
                lemma_replay_characterization(replay(Map::<u64, V>::empty(), init@), updates@);
                lemma_replay_characterization(Map::<u64, V>::empty(), init@);
                lemma_last_update_at(init@, key, i as int);
                assert(replay(Map::<u64, V>::empty(), init@).contains_key(key));
                assert(replay(Map::<u64, V>::empty(), init@)[key] == init@[i as int].1);
                assert(replay(replay(Map::<u64, V>::empty(), init@), updates@).contains_key(key));
                assert(replay(replay(Map::<u64, V>::empty(), init@), updates@)[key] == init@[
                    i as int
                ].1);
            }
            return Some(&init[i].1);
        }
    }
    assert(!has_update(init@, key));
    proof {
        lemma_replay_characterization(replay(Map::<u64, V>::empty(), init@), updates@);
        lemma_replay_characterization(Map::<u64, V>::empty(), init@);
    }
    None
}

/// When position `i` holds the last update for `k`, its payload is the
/// item's final state.
proof fn lemma_last_update_at<K, V>(s: Seq<(K, V)>, k: K, i: int)
    requires
        0 <= i < s.len(),
        s[i].0 == k,
        forall|j: int| i < j < s.len() ==> (#[trigger] s[j]).0 != k,
    ensures
        has_update(s, k),
        last_update(s, k) == s[i].1,
    decreases s.len(),
{
    if i == 0 {
        if has_update(s.drop_first(), k) {
            let j = choose|j: int| 0 <= j < s.drop_first().len() && s.drop_first()[j].0 == k;
            assert(s[j + 1].0 == k);
            assert(false);
        }
    } else {
        assert forall|j: int| i - 1 < j < s.drop_first().len() implies (#[trigger] s.drop_first()[j]).0
            != k by {
            assert(s.drop_first()[j] == s[j + 1]);
        }
        lemma_last_update_at(s.drop_first(), k, i - 1);
        assert(has_update(s, k)) by {
            assert(0 <= i < s.len() && s[i].0 == k);
        }
    }
}

} // verus!
