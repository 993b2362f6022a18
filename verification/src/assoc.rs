//! Association lists keyed by strings, as mathematical sequences of pairs.
//!
//! Both the environment snapshot and the fact store keep their entries in a
//! vector. This module gives the shared model: what it means for a sequence
//! of pairs to hold a key, which map it stands for, and how `put` changes a
//! sequence that holds no key twice.

use vstd::prelude::*;

verus! {

/// A key as contracts see it: the characters of a string.
pub type Key = Seq<char>;

/// The key of the pair at index `i`.
pub open spec fn key_at<V>(s: Seq<(Key, V)>, i: int) -> Key {
    s[i].0
}

/// Some pair of `s` has the key `k`.
pub open spec fn has_key<V>(s: Seq<(Key, V)>, k: Key) -> bool {
    exists|i: int| 0 <= i < s.len() && #[trigger] key_at(s, i) == k
}

/// No key occurs at two indices.
pub open spec fn distinct_keys<V>(s: Seq<(Key, V)>) -> bool {
    forall|i: int, j: int|
        0 <= i < j < s.len() ==> #[trigger] key_at(s, i) != #[trigger] key_at(s, j)
}

/// An index at which `k` stands; the only one where the keys are distinct.
pub open spec fn position<V>(s: Seq<(Key, V)>, k: Key) -> int {
    choose|i: int| 0 <= i < s.len() && #[trigger] key_at(s, i) == k
}

/// `s` with `k` bound to `v`: a key already present keeps its place and gets
/// the new value, a new key goes to the end.
pub open spec fn put<V>(s: Seq<(Key, V)>, k: Key, v: V) -> Seq<(Key, V)> {
    if has_key(s, k) {
        s.update(position(s, k), (k, v))
    } else {
        s.push((k, v))
    }
}

/// `s` after every pair of `t` has been put into it, in the order of `t`.
pub open spec fn put_all<V>(s: Seq<(Key, V)>, t: Seq<(Key, V)>) -> Seq<(Key, V)>
    decreases t.len(),
{
    if t.len() == 0 {
        s
    } else {
        put(put_all(s, t.drop_last()), t.last().0, t.last().1)
    }
}

/// What a map holds at `k`, if anything.
pub open spec fn lookup<V>(m: Map<Key, V>, k: Key) -> Option<V> {
    if m.contains_key(k) {
        Some(m[k])
    } else {
        None
    }
}

/// The map that `s` stands for. Where a key occurs more than once the last
/// pair decides.
pub open spec fn to_map<V>(s: Seq<(Key, V)>) -> Map<Key, V>
    decreases s.len(),
{
    if s.len() == 0 {
        Map::empty()
    } else {
        to_map(s.drop_last()).insert(s.last().0, s.last().1)
    }
}

/// The keys of the map are the keys of the pairs.
pub proof fn lemma_to_map_dom<V>(s: Seq<(Key, V)>, k: Key)
    ensures
        to_map(s).contains_key(k) <==> has_key(s, k),
    decreases s.len(),
{
    if s.len() > 0 {
        let init = s.drop_last();
        lemma_to_map_dom(init, k);
        if has_key(s, k) {
            let i = position(s, k);
            if i < s.len() - 1 {
                assert(key_at(init, i) == k);
            }
        }
        if has_key(init, k) {
            let i = position(init, k);
            assert(key_at(s, i) == k);
        }
        if s.last().0 == k {
            assert(key_at(s, s.len() - 1) == k);
        }
    }
}

/// The map binds a key to the value of the last pair that holds it.
pub proof fn lemma_to_map_last<V>(s: Seq<(Key, V)>, i: int)
    requires
        0 <= i < s.len(),
        forall|j: int| i < j < s.len() ==> #[trigger] key_at(s, j) != key_at(s, i),
    ensures
        to_map(s).contains_key(key_at(s, i)),
        to_map(s)[key_at(s, i)] == s[i].1,
    decreases s.len(),
{
    let init = s.drop_last();
    let last = s.len() - 1;
    if i < last {
        assert forall|j: int| i < j < init.len() implies #[trigger] key_at(init, j)
            != key_at(init, i) by {
            assert(key_at(s, j) != key_at(s, i));
        }
        lemma_to_map_last(init, i);
        assert(key_at(s, last) != key_at(s, i));
    }
}

/// Under distinct keys the map binds each key to the value beside it.
pub proof fn lemma_to_map_at<V>(s: Seq<(Key, V)>, i: int)
    requires
        distinct_keys(s),
        0 <= i < s.len(),
    ensures
        to_map(s).contains_key(key_at(s, i)),
        to_map(s)[key_at(s, i)] == s[i].1,
{
    lemma_to_map_last(s, i);
}

/// Under distinct keys, every index that holds `k` is `position(s, k)`.
pub proof fn lemma_position_unique<V>(s: Seq<(Key, V)>, k: Key, i: int)
    requires
        distinct_keys(s),
        0 <= i < s.len(),
        key_at(s, i) == k,
    ensures
        has_key(s, k),
        position(s, k) == i,
{
}

/// Overwriting the value at an index keeps the keys distinct and changes the
/// map at that key alone.
pub proof fn lemma_update_value<V>(s: Seq<(Key, V)>, i: int, v: V)
    requires
        distinct_keys(s),
        0 <= i < s.len(),
    ensures
        distinct_keys(s.update(i, (key_at(s, i), v))),
        to_map(s.update(i, (key_at(s, i), v))) == to_map(s).insert(key_at(s, i), v),
{
    let k = key_at(s, i);
    let t = s.update(i, (k, v));
    assert forall|a: int| 0 <= a < s.len() implies #[trigger] key_at(t, a) == key_at(s, a) by {}
    assert forall|x: Key| #[trigger]
        to_map(t).contains_key(x) == to_map(s).insert(k, v).contains_key(x) by {
        lemma_to_map_dom(t, x);
        lemma_to_map_dom(s, x);
        if has_key(t, x) {
            assert(key_at(s, position(t, x)) == x);
        }
        if has_key(s, x) {
            assert(key_at(t, position(s, x)) == x);
        }
    }
    assert forall|x: Key| to_map(t).contains_key(x) implies #[trigger] to_map(t)[x] == to_map(
        s,
    ).insert(k, v)[x] by {
        lemma_to_map_dom(t, x);
        let p = position(t, x);
        lemma_to_map_at(t, p);
        if p != i {
            lemma_to_map_at(s, p);
            lemma_position_unique(s, k, i);
        }
    }
}

/// `put` keeps the keys distinct and is `insert` on the map.
pub proof fn lemma_put<V>(s: Seq<(Key, V)>, k: Key, v: V)
    requires
        distinct_keys(s),
    ensures
        distinct_keys(put(s, k, v)),
        to_map(put(s, k, v)) == to_map(s).insert(k, v),
        has_key(s, k) ==> put(s, k, v).len() == s.len(),
        !has_key(s, k) ==> put(s, k, v).len() == s.len() + 1,
{
    if has_key(s, k) {
        let i = position(s, k);
        lemma_update_value(s, i, v);
    } else {
        let t = s.push((k, v));
        assert(t.drop_last() == s);
        assert forall|a: int, b: int| 0 <= a < b < t.len() implies #[trigger] key_at(t, a)
            != #[trigger] key_at(t, b) by {
            if b < s.len() {
                assert(key_at(s, a) != key_at(s, b));
            } else {
                assert(key_at(s, a) == key_at(t, a));
            }
        }
    }
}

/// Putting a key that no pair holds appends the pair.
pub proof fn lemma_put_fresh<V>(s: Seq<(Key, V)>, k: Key, v: V)
    requires
        forall|i: int| 0 <= i < s.len() ==> #[trigger] key_at(s, i) != k,
    ensures
        !has_key(s, k),
        put(s, k, v) == s.push((k, v)),
{
}

/// Putting pairs whose keys are new and distinct appends them in order.
pub proof fn lemma_put_all_disjoint<V>(s: Seq<(Key, V)>, t: Seq<(Key, V)>)
    requires
        distinct_keys(t),
        forall|i: int, j: int|
            0 <= i < s.len() && 0 <= j < t.len() ==> #[trigger] key_at(s, i)
                != #[trigger] key_at(t, j),
    ensures
        put_all(s, t) == s + t,
    decreases t.len(),
{
    if t.len() > 0 {
        let init = t.drop_last();
        let last = t.len() - 1;
        assert forall|a: int, b: int| 0 <= a < b < init.len() implies #[trigger] key_at(init, a)
            != #[trigger] key_at(init, b) by {
            assert(key_at(t, a) != key_at(t, b));
        }
        assert forall|i: int, j: int|
            0 <= i < s.len() && 0 <= j < init.len() implies #[trigger] key_at(s, i)
            != #[trigger] key_at(init, j) by {
            assert(key_at(s, i) != key_at(t, j));
        }
        lemma_put_all_disjoint(s, init);
        let u = s + init;
        assert forall|i: int| 0 <= i < u.len() implies #[trigger] key_at(u, i) != t.last().0 by {
            if i < s.len() {
                assert(key_at(s, i) != key_at(t, last));
            } else {
                assert(key_at(t, i - s.len()) != key_at(t, last));
            }
        }
        lemma_put_fresh(u, t.last().0, t.last().1);
        assert(u.push(t.last()) =~= s + t);
    }
}

/// `put_all` keeps the keys distinct, and on the maps it is the union in
/// which the second operand decides.
pub proof fn lemma_put_all<V>(s: Seq<(Key, V)>, t: Seq<(Key, V)>)
    requires
        distinct_keys(s),
    ensures
        distinct_keys(put_all(s, t)),
        to_map(put_all(s, t)) == to_map(s).union_prefer_right(to_map(t)),
    decreases t.len(),
{
    if t.len() > 0 {
        let init = t.drop_last();
        lemma_put_all(s, init);
        lemma_put(put_all(s, init), t.last().0, t.last().1);
        assert(to_map(s).union_prefer_right(to_map(init)).insert(t.last().0, t.last().1)
            =~= to_map(s).union_prefer_right(to_map(t)));
    }
}

/// The pair `p` stands in `s`.
pub open spec fn has_pair<V>(s: Seq<(Key, V)>, p: (Key, V)) -> bool {
    exists|i: int| 0 <= i < s.len() && #[trigger] s[i] == p
}

/// After `put_all`, every pair of `t` stands in the result.
pub proof fn lemma_put_all_holds<V>(s: Seq<(Key, V)>, t: Seq<(Key, V)>, j: int)
    requires
        distinct_keys(s),
        distinct_keys(t),
        0 <= j < t.len(),
    ensures
        has_pair(put_all(s, t), t[j]),
    decreases t.len(),
{
    let init = t.drop_last();
    let last = t.len() - 1;
    let u = put_all(s, init);
    let r = put_all(s, t);
    assert forall|a: int, b: int| 0 <= a < b < init.len() implies #[trigger] key_at(init, a)
        != #[trigger] key_at(init, b) by {
        assert(key_at(t, a) != key_at(t, b));
    }
    lemma_put_all(s, init);
    lemma_put(u, t.last().0, t.last().1);
    if has_key(u, t.last().0) {
        let p = position(u, t.last().0);
        if j == last {
            assert(r[p] == t[j]);
        } else {
            lemma_put_all_holds(s, init, j);
            let i = choose|i: int| 0 <= i < u.len() && #[trigger] u[i] == init[j];
            assert(key_at(t, j) != key_at(t, last));
            assert(r[i] == t[j]);
        }
    } else if j == last {
        assert(r[u.len() as int] == t[j]);
    } else {
        lemma_put_all_holds(s, init, j);
        let i = choose|i: int| 0 <= i < u.len() && #[trigger] u[i] == init[j];
        assert(r[i] == t[j]);
    }
}

/// Putting pairs that already stand in `s` changes nothing.
pub proof fn lemma_put_all_present<V>(s: Seq<(Key, V)>, t: Seq<(Key, V)>)
    requires
        distinct_keys(s),
        forall|j: int| 0 <= j < t.len() ==> has_pair(s, #[trigger] t[j]),
    ensures
        put_all(s, t) == s,
    decreases t.len(),
{
    if t.len() > 0 {
        let init = t.drop_last();
        let last = t.len() - 1;
        assert forall|j: int| 0 <= j < init.len() implies has_pair(s, #[trigger] init[j]) by {
            assert(has_pair(s, t[j]));
        }
        lemma_put_all_present(s, init);
        assert(has_pair(s, t[last]));
        let i = choose|i: int| 0 <= i < s.len() && #[trigger] s[i] == t[last];
        lemma_position_unique(s, t.last().0, i);
        assert(s.update(i, t.last()) =~= s);
    }
}

/// Putting the same pairs a second time changes nothing.
pub proof fn lemma_put_all_twice<V>(s: Seq<(Key, V)>, t: Seq<(Key, V)>)
    requires
        distinct_keys(s),
        distinct_keys(t),
    ensures
        put_all(put_all(s, t), t) == put_all(s, t),
{
    let u = put_all(s, t);
    lemma_put_all(s, t);
    assert forall|j: int| 0 <= j < t.len() implies has_pair(u, #[trigger] t[j]) by {
        lemma_put_all_holds(s, t, j);
    }
    lemma_put_all_present(u, t);
}

} // verus!
