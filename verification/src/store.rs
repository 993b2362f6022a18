//! The fact store: constant names bound to values, in insertion order, each
//! name at most once.

use crate::assoc::{
    distinct_keys, has_key, key_at, lemma_position_unique, lemma_put, lemma_put_all,
    lemma_put_all_twice, lemma_put_fresh, lemma_to_map_at, lemma_to_map_dom, put, put_all, to_map,
    Key,
};
use crate::value::{ConstVal, ConstValView};
use vstd::prelude::*;

verus! {

/// One entry of the store.
#[derive(Debug)]
struct Fact {
    name: String,
    val: ConstVal,
}

impl Fact {
    spec fn pair(self) -> (Key, ConstValView) {
        (self.name@, self.val@)
    }
}

/// The entries that a vector of facts stands for.
spec fn pairs_of(facts: Seq<Fact>) -> Seq<(Key, ConstValView)> {
    Seq::new(facts.len(), |i: int| facts[i].pair())
}

/// A table of facts keyed by constant name. A later write for a name replaces
/// the earlier value and keeps the name's place.
#[derive(Debug)]
pub struct FactStore {
    facts: Vec<Fact>,
}

impl View for FactStore {
    type V = Map<Key, ConstValView>;

    /// The store as a map from name to value.
    open spec fn view(&self) -> Map<Key, ConstValView> {
        to_map(self.entries())
    }
}

impl FactStore {
    /// The entries in the order in which they are written out.
    pub closed spec fn entries(&self) -> Seq<(Key, ConstValView)> {
        pairs_of(self.facts@)
    }

    /// No name occurs twice.
    pub open spec fn wf(&self) -> bool {
        distinct_keys(self.entries())
    }

    /// The empty store.
    pub fn new() -> (r: FactStore)
        ensures
            r.wf(),
            r.entries() == Seq::<(Key, ConstValView)>::empty(),
            r@ == Map::<Key, ConstValView>::empty(),
    {
        FactStore { facts: Vec::new() }
    }

    /// The number of entries.
    pub fn len(&self) -> (n: usize)
        ensures
            n == self.entries().len(),
    {
        self.facts.len()
    }

    /// Whether the store holds no entry.
    pub fn is_empty(&self) -> (r: bool)
        ensures
            r == (self.entries().len() == 0),
    {
        self.facts.len() == 0
    }

    /// The index at which `name` stands, if it is there.
    fn find(&self, name: &String) -> (r: Option<usize>)
        ensures
            match r {
                Some(i) => i < self.entries().len() && key_at(self.entries(), i as int) == name@,
                None => !has_key(self.entries(), name@),
            },
    {
        let mut i: usize = 0;
        while i < self.facts.len()
            invariant
                i <= self.facts.len(),
                forall|j: int| 0 <= j < i ==> key_at(self.entries(), j) != name@,
            decreases self.facts.len() - i,
        {
            if self.facts[i].name == *name {
                return Some(i);
            }
            i += 1;
        }
        None
    }

    /// Binds `name` to `val`. A name already present keeps its place and gets
    /// the new value; a new name goes to the end.
    pub fn insert(&mut self, name: String, val: ConstVal)
        requires
            old(self).wf(),
        ensures
            final(self).wf(),
            final(self).entries() == put(old(self).entries(), name@, val@),
            final(self)@ == old(self)@.insert(name@, val@),
    {
        let ghost before = self.entries();
        proof {
            lemma_put(before, name@, val@);
        }
        match self.find(&name) {
            Some(i) => {
                proof {
                    lemma_position_unique(before, name@, i as int);
                }
                self.facts[i] = Fact { name, val };
                assert(self.entries() =~= before.update(i as int, (name@, val@)));
            },
            None => {
                self.facts.push(Fact { name, val });
                assert(self.entries() =~= before.push((name@, val@)));
            },
        }
    }

    /// Appends an entry for a name that the store does not hold yet.
    pub(crate) fn insert_fresh(&mut self, name: &str, val: ConstVal)
        requires
            old(self).wf(),
            forall|i: int|
                0 <= i < old(self).entries().len() ==> #[trigger] key_at(old(self).entries(), i)
                    != name@,
        ensures
            final(self).wf(),
            final(self).entries() == old(self).entries().push((name@, val@)),
    {
        proof {
            lemma_put_fresh(self.entries(), name@, val@);
        }
        self.insert(String::from_str(name), val);
    }

    /// The value bound to `name`, if there is one.
    pub fn get(&self, name: &str) -> (r: Option<&ConstVal>)
        requires
            self.wf(),
        ensures
            match r {
                Some(val) => self@.contains_key(name@) && val@ == self@[name@],
                None => !self@.contains_key(name@),
            },
    {
        let key = String::from_str(name);
        proof {
            lemma_to_map_dom(self.entries(), name@);
        }
        match self.find(&key) {
            Some(i) => {
                proof {
                    lemma_to_map_at(self.entries(), i as int);
                }
                Some(&self.facts[i].val)
            },
            None => None,
        }
    }

    /// Whether `name` is bound.
    pub fn contains_key(&self, name: &str) -> (r: bool)
        ensures
            r == self@.contains_key(name@),
    {
        let key = String::from_str(name);
        proof {
            lemma_to_map_dom(self.entries(), name@);
        }
        self.find(&key).is_some()
    }

    /// The name of the `i`-th entry, if there are that many.
    pub fn name_at(&self, i: usize) -> (r: Option<&str>)
        ensures
            match r {
                Some(name) => i < self.entries().len() && name@ == self.entries()[i as int].0,
                None => i >= self.entries().len(),
            },
    {
        if i < self.facts.len() {
            Some(self.facts[i].name.as_str())
        } else {
            None
        }
    }

    /// The value of the `i`-th entry, if there are that many.
    pub fn value_at(&self, i: usize) -> (r: Option<&ConstVal>)
        ensures
            match r {
                Some(val) => i < self.entries().len() && val@ == self.entries()[i as int].1,
                None => i >= self.entries().len(),
            },
    {
        if i < self.facts.len() {
            Some(&self.facts[i].val)
        } else {
            None
        }
    }

    /// Writes every entry of `other` into this store, in the order of
    /// `other`: where both bind a name, the value of `other` stays.
    pub fn extend(&mut self, other: &FactStore)
        requires
            old(self).wf(),
        ensures
            final(self).wf(),
            final(self).entries() == put_all(old(self).entries(), other.entries()),
            final(self)@ == old(self)@.union_prefer_right(other@),
    {
        let ghost before = self.entries();
        let mut i: usize = 0;
        while i < other.facts.len()
            invariant
                i <= other.facts.len(),
                self.wf(),
                self.entries() == put_all(before, other.entries().take(i as int)),
            decreases other.facts.len() - i,
        {
            let fact = &other.facts[i];
            assert(other.entries().take(i + 1).drop_last() == other.entries().take(i as int));
            self.insert(fact.name.clone(), fact.val.clone());
            i += 1;
        }
        proof {
            assert(other.entries().take(i as int) == other.entries());
            lemma_put_all(before, other.entries());
        }
    }
}

impl Clone for FactStore {
    fn clone(&self) -> (r: Self)
        ensures
            r.entries() == self.entries(),
    {
        let mut facts: Vec<Fact> = Vec::new();
        let mut i: usize = 0;
        while i < self.facts.len()
            invariant
                i <= self.facts.len(),
                pairs_of(facts@) == self.entries().take(i as int),
            decreases self.facts.len() - i,
        {
            let fact = &self.facts[i];
            facts.push(Fact { name: fact.name.clone(), val: fact.val.clone() });
            assert(pairs_of(facts@) =~= self.entries().take(i as int).push(fact.pair()));
            i += 1;
        }
        FactStore { facts }
    }
}

/// The entries of each fragment, in order.
pub open spec fn entries_of(fragments: Seq<FactStore>) -> Seq<Seq<(Key, ConstValView)>> {
    fragments.map_values(|f: FactStore| f.entries())
}

/// The map of each fragment, in order.
pub open spec fn maps_of(fragments: Seq<FactStore>) -> Seq<Map<Key, ConstValView>> {
    fragments.map_values(|f: FactStore| f@)
}

/// The entries of the merged store: every fragment put into the empty store,
/// first fragment first.
pub open spec fn merged_entries(fragments: Seq<Seq<(Key, ConstValView)>>) -> Seq<
    (Key, ConstValView),
>
    decreases fragments.len(),
{
    if fragments.len() == 0 {
        Seq::empty()
    } else {
        put_all(merged_entries(fragments.drop_last()), fragments.last())
    }
}

/// The merged store as a map: the union of the fragments in which a later
/// fragment decides.
pub open spec fn merged_map(fragments: Seq<Map<Key, ConstValView>>) -> Map<Key, ConstValView>
    decreases fragments.len(),
{
    if fragments.len() == 0 {
        Map::empty()
    } else {
        merged_map(fragments.drop_last()).union_prefer_right(fragments.last())
    }
}

/// The merged entries have distinct names and stand for the merged map.
pub proof fn lemma_merged(fragments: Seq<FactStore>)
    ensures
        distinct_keys(merged_entries(entries_of(fragments))),
        to_map(merged_entries(entries_of(fragments))) == merged_map(maps_of(fragments)),
    decreases fragments.len(),
{
    if fragments.len() > 0 {
        let init = fragments.drop_last();
        lemma_merged(init);
        assert(entries_of(fragments).drop_last() == entries_of(init));
        assert(maps_of(fragments).drop_last() == maps_of(init));
        lemma_put_all(merged_entries(entries_of(init)), fragments.last().entries());
    }
}

/// Merges the fragments into one store, first fragment first: where two
/// fragments bind the same name, the later one decides.
pub fn merge(fragments: &Vec<FactStore>) -> (r: FactStore)
    ensures
        r.wf(),
        r.entries() == merged_entries(entries_of(fragments@)),
        r@ == merged_map(maps_of(fragments@)),
{
    let mut store = FactStore::new();
    let mut i: usize = 0;
    while i < fragments.len()
        invariant
            i <= fragments.len(),
            store.wf(),
            store.entries() == merged_entries(entries_of(fragments@.take(i as int))),
        decreases fragments.len() - i,
    {
        assert(entries_of(fragments@.take(i + 1)).drop_last() == entries_of(
            fragments@.take(i as int),
        ));
        store.extend(&fragments[i]);
        i += 1;
    }
    proof {
        assert(fragments@.take(i as int) == fragments@);
        lemma_merged(fragments@);
    }
    store
}

/// Merging is idempotent: a fragment that is merged a second time, right
/// after the first, leaves the store as it was, entry for entry.
pub proof fn lemma_merge_idempotent(before: Seq<FactStore>, fragment: FactStore)
    requires
        fragment.wf(),
    ensures
        merged_entries(entries_of(before.push(fragment).push(fragment))) == merged_entries(
            entries_of(before.push(fragment)),
        ),
        merged_map(maps_of(before.push(fragment).push(fragment))) == merged_map(
            maps_of(before.push(fragment)),
        ),
{
    let once = before.push(fragment);
    let twice = once.push(fragment);
    lemma_merged(before);
    lemma_merged(once);
    lemma_merged(twice);
    assert(entries_of(once).drop_last() =~= entries_of(before));
    assert(entries_of(twice).drop_last() =~= entries_of(once));
    lemma_put_all_twice(merged_entries(entries_of(before)), fragment.entries());
}

/// Merging prefers the later fragment: a name has the value of the last
/// fragment that binds it.
pub proof fn lemma_merge_later_wins(fragments: Seq<Map<Key, ConstValView>>, i: int, name: Key)
    requires
        0 <= i < fragments.len(),
        fragments[i].contains_key(name),
        forall|j: int| i < j < fragments.len() ==> !(#[trigger] fragments[j]).contains_key(name),
    ensures
        merged_map(fragments).contains_key(name),
        merged_map(fragments)[name] == fragments[i][name],
    decreases fragments.len(),
{
    if i < fragments.len() - 1 {
        let init = fragments.drop_last();
        assert(!fragments[fragments.len() - 1].contains_key(name));
        lemma_merge_later_wins(init, i, name);
    }
}

/// Of two fragments that bind the same name, the second decides.
pub proof fn lemma_merge_overlap(first: FactStore, second: FactStore, name: Key)
    requires
        first@.contains_key(name),
        second@.contains_key(name),
    ensures
        merged_map(maps_of(seq![first, second])).contains_key(name),
        merged_map(maps_of(seq![first, second]))[name] == second@[name],
{
    lemma_merge_later_wins(maps_of(seq![first, second]), 1, name);
}

} // verus!
