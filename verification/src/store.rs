use vstd::prelude::*;

verus! {

broadcast use vstd::seq::group_seq_axioms, vstd::map::group_map_axioms;

/// The map denoted by a list of key-value entries; later entries shadow
/// earlier ones, though a well-formed store never holds a key twice.
pub open spec fn kv_map<K: View, V>(entries: Seq<(K, V)>) -> Map<<K as View>::V, V>
    decreases entries.len(),
{
    if entries.len() == 0 {
        Map::<<K as View>::V, V>::empty()
    } else {
        kv_map(entries.drop_last()).insert(entries.last().0@, entries.last().1)
    }
}

/// No two entries share a key.
pub open spec fn kv_distinct<K: View, V>(entries: Seq<(K, V)>) -> bool {
    forall|i: int, j: int| 0 <= i < j < entries.len() ==> entries[i].0@ != entries[j].0@
}

/// What the entry list says is exactly what the map says: a key is bound
/// exactly when some entry carries it, and then to that entry's value.
pub proof fn lemma_kv_map_characterization<K: View, V>(entries: Seq<(K, V)>)
    requires
        kv_distinct(entries),
    ensures
        forall|k: <K as View>::V| #[trigger] kv_map(entries).contains_key(k)
            <==> exists|i: int| 0 <= i < entries.len() && entries[i].0@ == k,
        forall|i: int| 0 <= i < entries.len() ==> kv_map(entries).contains_key(
            #[trigger] entries[i].0@,
        ) && kv_map(entries)[entries[i].0@] == entries[i].1,
    decreases entries.len(),
{
    if entries.len() > 0 {
        let prefix = entries.drop_last();
        assert(kv_distinct(prefix)) by {
            assert(forall|i: int| 0 <= i < prefix.len() ==> prefix[i] == entries[i]);
        }
        lemma_kv_map_characterization(prefix);
        assert(forall|i: int| 0 <= i < prefix.len() ==> prefix[i] == entries[i]);
        assert forall|k: <K as View>::V| #[trigger] kv_map(entries).contains_key(k)
            <==> exists|i: int| 0 <= i < entries.len() && entries[i].0@ == k by {
            assert(kv_map(entries) == kv_map(prefix).insert(entries.last().0@, entries.last().1));
            if kv_map(entries).contains_key(k) {
                if k == entries.last().0@ {
                    assert(entries[entries.len() - 1].0@ == k);
                } else {
                    assert(kv_map(prefix).contains_key(k));
                    let j = choose|j: int| 0 <= j < prefix.len() && prefix[j].0@ == k;
                    assert(prefix[j] == entries[j]);
                    assert(entries[j].0@ == k);
                }
            }
            if exists|i: int| 0 <= i < entries.len() && entries[i].0@ == k {
                let i = choose|i: int| 0 <= i < entries.len() && entries[i].0@ == k;
                if i < entries.len() - 1 {
                    assert(prefix[i] == entries[i]);
                    assert(prefix[i].0@ == k);
                    assert(kv_map(prefix).contains_key(k));
                }
                assert(kv_map(entries).contains_key(k));
            }
        }
        assert forall|i: int| 0 <= i < entries.len() implies kv_map(entries).contains_key(
            #[trigger] entries[i].0@,
        ) && kv_map(entries)[entries[i].0@] == entries[i].1 by {
            if i < entries.len() - 1 {
                assert(entries[i].0@ != entries.last().0@);
            }
        }
    }
}

/// Appending an entry under a fresh key adds exactly that binding.
pub proof fn lemma_kv_map_push<K: View, V>(entries: Seq<(K, V)>, k: K, v: V)
    requires
        kv_distinct(entries),
        forall|i: int| 0 <= i < entries.len() ==> entries[i].0@ != k@,
    ensures
        kv_distinct(entries.push((k, v))),
        kv_map(entries.push((k, v))) == kv_map(entries).insert(k@, v),
{
    let pushed = entries.push((k, v));
    assert(pushed.drop_last() =~= entries);
    assert(pushed.last() == (k, v));
    assert forall|i: int, j: int| 0 <= i < j < pushed.len() implies pushed[i].0@ != pushed[j].0@
    by {
        if j < pushed.len() - 1 {
            assert(pushed[i] == entries[i] && pushed[j] == entries[j]);
        } else {
            assert(pushed[i] == entries[i] && pushed[j].0@ == k@);
        }
    }
}

/// Replacing the value at one entry rebinds exactly that entry's key.
pub proof fn lemma_kv_map_update<K: View, V>(entries: Seq<(K, V)>, i: int, e: (K, V))
    requires
        kv_distinct(entries),
        0 <= i < entries.len(),
        e.0@ == entries[i].0@,
    ensures
        kv_distinct(entries.update(i, e)),
        kv_map(entries.update(i, e)) == kv_map(entries).insert(entries[i].0@, e.1),
{
    let updated = entries.update(i, e);
    assert(forall|j: int| 0 <= j < entries.len() ==> updated[j].0@ == entries[j].0@);
    lemma_kv_map_characterization(entries);
    lemma_kv_map_characterization(updated);
    assert forall|k: <K as View>::V|
        kv_map(updated).contains_key(k)
            == kv_map(entries).insert(entries[i].0@, e.1).contains_key(k) by {
        if kv_map(updated).contains_key(k) {
            let j = choose|j: int| 0 <= j < updated.len() && updated[j].0@ == k;
            assert(entries[j].0@ == k);
        }
        if kv_map(entries).insert(entries[i].0@, e.1).contains_key(k) {
            if k != entries[i].0@ {
                let j = choose|j: int| 0 <= j < entries.len() && entries[j].0@ == k;
                assert(updated[j].0@ == k);
            } else {
                assert(updated[i].0@ == k);
            }
        }
    }
    assert forall|k: <K as View>::V| kv_map(updated).contains_key(k)
        implies kv_map(updated)[k] == kv_map(entries).insert(entries[i].0@, e.1)[k] by {
        let j = choose|j: int| 0 <= j < updated.len() && updated[j].0@ == k;
        if j == i {
            assert(kv_map(updated)[k] == e.1);
        } else {
            assert(entries[j].0@ == k);
            assert(k != entries[i].0@);
            assert(kv_map(updated)[k] == updated[j].1);
            assert(updated[j].1 == entries[j].1);
        }
    }
    assert(kv_map(updated) =~= kv_map(entries).insert(entries[i].0@, e.1));
}

/// Removing one entry unbinds exactly that entry's key.
pub proof fn lemma_kv_map_remove<K: View, V>(entries: Seq<(K, V)>, i: int)
    requires
        kv_distinct(entries),
        0 <= i < entries.len(),
    ensures
        kv_distinct(entries.remove(i)),
        kv_map(entries.remove(i)) == kv_map(entries).remove(entries[i].0@),
{
    let removed = entries.remove(i);
    assert(forall|j: int| 0 <= j < i ==> removed[j] == entries[j]);
    assert(forall|j: int| i <= j < removed.len() ==> removed[j] == entries[j + 1]);
    assert forall|p: int, q: int| 0 <= p < q < removed.len()
        implies removed[p].0@ != removed[q].0@ by {
        let p0 = if p < i { p } else { p + 1 };
        let q0 = if q < i { q } else { q + 1 };
        assert(removed[p] == entries[p0] && removed[q] == entries[q0]);
    }
    lemma_kv_map_characterization(entries);
    lemma_kv_map_characterization(removed);
    assert forall|k: <K as View>::V|
        kv_map(removed).contains_key(k)
            == kv_map(entries).remove(entries[i].0@).contains_key(k) by {
        if kv_map(removed).contains_key(k) {
            let j = choose|j: int| 0 <= j < removed.len() && removed[j].0@ == k;
            let j0 = if j < i { j } else { j + 1 };
            assert(entries[j0].0@ == k);
            assert(k != entries[i].0@);
        }
        if kv_map(entries).remove(entries[i].0@).contains_key(k) {
            let j = choose|j: int| 0 <= j < entries.len() && entries[j].0@ == k;
            assert(j != i);
            let j1 = if j < i { j } else { j - 1 };
            assert(removed[j1].0@ == k);
        }
    }
    assert forall|k: <K as View>::V| kv_map(removed).contains_key(k)
        implies kv_map(removed)[k] == kv_map(entries).remove(entries[i].0@)[k] by {
        let j = choose|j: int| 0 <= j < removed.len() && removed[j].0@ == k;
        let j0 = if j < i { j } else { j + 1 };
        assert(removed[j] == entries[j0]);
        assert(kv_map(removed)[k] == removed[j].1);
        assert(kv_map(entries)[k] == entries[j0].1);
        assert(k != entries[i].0@);
    }
    assert(kv_map(removed) =~= kv_map(entries).remove(entries[i].0@));
}

} // verus!
