//! Association lists: the finite map that a list of key-value pairs with
//! distinct keys stands for.
use vstd::prelude::*;

verus! {

/// No key occurs twice in `s`.
pub open spec fn distinct_keys<K, V>(s: Seq<(K, V)>) -> bool {
    forall|i: int, j: int| 0 <= i < j < s.len() ==> s[i].0 != s[j].0
}

/// Whether `k` is the key of some pair of `s`.
pub open spec fn has_key<K, V>(s: Seq<(K, V)>, k: K) -> bool {
    exists|i: int| 0 <= i < s.len() && (#[trigger] s[i]).0 == k
}

/// The map that `s` stands for: a key is mapped to the value it is paired
/// with.
pub open spec fn map_of<K, V>(s: Seq<(K, V)>) -> Map<K, V> {
    Map::new(
        |k: K| has_key(s, k),
        |k: K| s[choose|i: int| 0 <= i < s.len() && (#[trigger] s[i]).0 == k].1,
    )
}

/// Where the keys are distinct, the pair at position `i` is what the map
/// holds for its key.
pub proof fn lemma_map_of_index<K, V>(s: Seq<(K, V)>, i: int)
    requires
        distinct_keys(s),
        0 <= i < s.len(),
    ensures
        map_of(s).contains_key(s[i].0),
        map_of(s)[s[i].0] == s[i].1,
{
    let k = s[i].0;
    assert(has_key(s, k));
    let j = choose|j: int| 0 <= j < s.len() && (#[trigger] s[j]).0 == k;
    assert(j == i) by {
        if j < i {
            assert(s[j].0 != s[i].0);
        } else if i < j {
            assert(s[i].0 != s[j].0);
        }
    }
}

/// The empty list stands for the empty map.
pub proof fn lemma_map_of_empty<K, V>()
    ensures
        map_of(Seq::<(K, V)>::empty()) == Map::<K, V>::empty(),
{
    assert(map_of(Seq::<(K, V)>::empty()) =~= Map::<K, V>::empty());
}

/// Adding a pair with a new key at the end adds it to the map.
pub proof fn lemma_map_of_push<K, V>(s: Seq<(K, V)>, k: K, v: V)
    requires
        distinct_keys(s),
        !has_key(s, k),
    ensures
        distinct_keys(s.push((k, v))),
        map_of(s.push((k, v))) == map_of(s).insert(k, v),
{
    let t = s.push((k, v));
    assert(distinct_keys(t)) by {
        assert forall|i: int, j: int| 0 <= i < j < t.len() implies t[i].0 != t[j].0 by {
            if j == s.len() {
                assert(s[i].0 != k);
            } else {
                assert(s[i].0 != s[j].0);
            }
        }
    }
    assert forall|q: K| map_of(t).contains_key(q) <==> map_of(s).insert(k, v).contains_key(
        q,
    ) by {
        if has_key(t, q) {
            let i = choose|i: int| 0 <= i < t.len() && (#[trigger] t[i]).0 == q;
            if i < s.len() {
                assert(s[i].0 == q);
            }
        }
        if has_key(s, q) {
            let i = choose|i: int| 0 <= i < s.len() && (#[trigger] s[i]).0 == q;
            assert(t[i].0 == q);
        }
        if q == k {
            assert(t[s.len() as int].0 == q);
        }
    }
    assert forall|q: K| map_of(t).contains_key(q) implies map_of(t)[q] == map_of(s).insert(
        k,
        v,
    )[q] by {
        let i = choose|i: int| 0 <= i < t.len() && (#[trigger] t[i]).0 == q;
        lemma_map_of_index(t, i);
        if i < s.len() {
            assert(s[i] == t[i]);
            lemma_map_of_index(s, i);
        }
    }
    assert(map_of(t) =~= map_of(s).insert(k, v));
}

/// Replacing the value of the pair at position `i` replaces it in the map.
pub proof fn lemma_map_of_update<K, V>(s: Seq<(K, V)>, i: int, v: V)
    requires
        distinct_keys(s),
        0 <= i < s.len(),
    ensures
        distinct_keys(s.update(i, (s[i].0, v))),
        map_of(s.update(i, (s[i].0, v))) == map_of(s).insert(s[i].0, v),
{
    let k = s[i].0;
    let t = s.update(i, (k, v));
    assert(distinct_keys(t)) by {
        assert forall|a: int, b: int| 0 <= a < b < t.len() implies t[a].0 != t[b].0 by {
            assert(s[a].0 != s[b].0);
        }
    }
    assert forall|q: K| map_of(t).contains_key(q) <==> map_of(s).insert(k, v).contains_key(
        q,
    ) by {
        if has_key(t, q) {
            let j = choose|j: int| 0 <= j < t.len() && (#[trigger] t[j]).0 == q;
            assert(s[j].0 == q);
        }
        if has_key(s, q) {
            let j = choose|j: int| 0 <= j < s.len() && (#[trigger] s[j]).0 == q;
            assert(t[j].0 == q);
        }
        if q == k {
            assert(t[i].0 == q);
        }
    }
    assert forall|q: K| map_of(t).contains_key(q) implies map_of(t)[q] == map_of(s).insert(
        k,
        v,
    )[q] by {
        let j = choose|j: int| 0 <= j < t.len() && (#[trigger] t[j]).0 == q;
        lemma_map_of_index(t, j);
        if j != i {
            assert(s[j] == t[j]);
            lemma_map_of_index(s, j);
        }
    }
    assert(map_of(t) =~= map_of(s).insert(k, v));
}

/// Where the keys are distinct, the map has as many keys as the list has
/// pairs.
pub proof fn lemma_map_of_len<K, V>(s: Seq<(K, V)>)
    requires
        distinct_keys(s),
    ensures
        map_of(s).dom().finite(),
        map_of(s).dom().len() == s.len(),
    decreases s.len(),
{
    if s.len() == 0 {
        assert(s =~= Seq::<(K, V)>::empty());
        lemma_map_of_empty::<K, V>();
    } else {
        let t = s.drop_last();
        let k = s.last().0;
        let v = s.last().1;
        assert(distinct_keys(t)) by {
            assert forall|i: int, j: int| 0 <= i < j < t.len() implies t[i].0 != t[j].0 by {
                assert(s[i].0 != s[j].0);
            }
        }
        assert(!has_key(t, k)) by {
            if has_key(t, k) {
                let i = choose|i: int| 0 <= i < t.len() && (#[trigger] t[i]).0 == k;
                assert(s[i].0 != s[s.len() - 1].0);
            }
        }
        assert(s =~= t.push((k, v)));
        lemma_map_of_push(t, k, v);
        lemma_map_of_len(t);
        assert(map_of(s).dom() =~= map_of(t).dom().insert(k));
        assert(!map_of(t).dom().contains(k));
    }
}

/// What a list of pairs stands for when it is read from first to last and a
/// later pair with the same key takes the place of an earlier one.
pub open spec fn last_wins<K, V>(s: Seq<(K, V)>) -> Map<K, V>
    decreases s.len(),
{
    if s.len() == 0 {
        Map::empty()
    } else {
        last_wins(s.drop_last()).insert(s.last().0, s.last().1)
    }
}

/// Whether the pair at position `i` is the last of `s` with its key.
pub open spec fn is_last<K, V>(s: Seq<(K, V)>, i: int) -> bool {
    &&& 0 <= i < s.len()
    &&& forall|j: int| i < j < s.len() ==> (#[trigger] s[j]).0 != s[i].0
}

/// A key is defined by a list of pairs exactly when it occurs in the list.
pub proof fn lemma_last_wins_defines_what_occurs<K, V>(s: Seq<(K, V)>, k: K)
    ensures
        last_wins(s).contains_key(k) <==> has_key(s, k),
    decreases s.len(),
{
    if s.len() > 0 {
        let rest = s.drop_last();
        lemma_last_wins_defines_what_occurs(rest, k);
        if has_key(rest, k) {
            let i = choose|i: int| 0 <= i < rest.len() && (#[trigger] rest[i]).0 == k;
            assert(s[i].0 == k);
        }
        if s.last().0 == k {
            assert(s[s.len() - 1].0 == k);
        }
        if has_key(s, k) {
            let i = choose|i: int| 0 <= i < s.len() && (#[trigger] s[i]).0 == k;
            if i < rest.len() {
                assert(rest[i].0 == k);
            }
        }
    }
}

/// Last write wins: a key is defined as the value of its last occurrence in
/// the list.
pub proof fn lemma_last_wins<K, V>(s: Seq<(K, V)>, i: int)
    requires
        is_last(s, i),
    ensures
        last_wins(s).contains_key(s[i].0),
        last_wins(s)[s[i].0] == s[i].1,
    decreases s.len(),
{
    let rest = s.drop_last();
    if i < s.len() - 1 {
        assert(s[s.len() - 1].0 != s[i].0);
        assert(is_last(rest, i)) by {
            assert forall|j: int| i < j < rest.len() implies (#[trigger] rest[j]).0
                != rest[i].0 by {
                assert(s[j].0 != s[i].0);
            }
        }
        lemma_last_wins(rest, i);
    }
}

/// Where no key occurs twice, reading a list with the last write winning
/// gives the map that the list stands for.
pub proof fn lemma_last_wins_of_distinct<K, V>(s: Seq<(K, V)>)
    requires
        distinct_keys(s),
    ensures
        last_wins(s) == map_of(s),
    decreases s.len(),
{
    if s.len() == 0 {
        assert(s =~= Seq::<(K, V)>::empty());
        lemma_map_of_empty::<K, V>();
    } else {
        let t = s.drop_last();
        let k = s.last().0;
        let v = s.last().1;
        assert(distinct_keys(t)) by {
            assert forall|i: int, j: int| 0 <= i < j < t.len() implies t[i].0 != t[j].0 by {
                assert(s[i].0 != s[j].0);
            }
        }
        assert(!has_key(t, k)) by {
            if has_key(t, k) {
                let i = choose|i: int| 0 <= i < t.len() && (#[trigger] t[i]).0 == k;
                assert(s[i].0 != s[s.len() - 1].0);
            }
        }
        assert(s =~= t.push((k, v)));
        lemma_map_of_push(t, k, v);
        lemma_last_wins_of_distinct(t);
    }
}

} // verus!
