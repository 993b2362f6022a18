//! The environment snapshot: the variables of the process, captured once and
//! read-only from then on.

use crate::assoc::{key_at, lemma_to_map_dom, lemma_to_map_last, to_map, Key};
use vstd::prelude::*;

verus! {

/// One variable of the environment.
#[derive(Debug)]
struct Var {
    name: String,
    value: String,
}

impl Var {
    spec fn pair(self) -> (Key, Seq<char>) {
        (self.name@, self.value@)
    }
}

/// The pairs that a vector of variables stands for.
spec fn pairs_of(vars: Seq<Var>) -> Seq<(Key, Seq<char>)> {
    Seq::new(vars.len(), |i: int| vars[i].pair())
}

/// The pairs that a vector of strings stands for.
pub open spec fn string_pairs(pairs: Seq<(String, String)>) -> Seq<(Key, Seq<char>)> {
    Seq::new(pairs.len(), |i: int| (pairs[i].0@, pairs[i].1@))
}

/// A mapping from variable name to value. Every component that needs the
/// environment takes one of these; none reads the process's own.
#[derive(Debug)]
pub struct EnvSnapshot {
    vars: Vec<Var>,
}

impl View for EnvSnapshot {
    type V = Map<Key, Seq<char>>;

    /// The snapshot as a map from name to value.
    closed spec fn view(&self) -> Map<Key, Seq<char>> {
        to_map(pairs_of(self.vars@))
    }
}

impl EnvSnapshot {
    /// The snapshot without any variable.
    pub fn new() -> (r: EnvSnapshot)
        ensures
            r@ == Map::<Key, Seq<char>>::empty(),
    {
        EnvSnapshot { vars: Vec::new() }
    }

    /// Sets `name` to `value`; a value that `name` had before is replaced.
    pub fn insert(&mut self, name: String, value: String)
        ensures
            final(self)@ == old(self)@.insert(name@, value@),
    {
        let ghost before = pairs_of(self.vars@);
        self.vars.push(Var { name, value });
        assert(pairs_of(self.vars@).drop_last() =~= before);
    }

    /// The snapshot of the given variables, taken in order: where a name
    /// comes twice, the later value stays.
    pub fn from_vars(vars: Vec<(String, String)>) -> (r: EnvSnapshot)
        ensures
            r@ == to_map(string_pairs(vars@)),
    {
        let mut env = EnvSnapshot::new();
        let mut i: usize = 0;
        while i < vars.len()
            invariant
                i <= vars.len(),
                env@ == to_map(string_pairs(vars@).take(i as int)),
            decreases vars.len() - i,
        {
            let ghost next = string_pairs(vars@).take(i + 1);
            assert(next.drop_last() =~= string_pairs(vars@).take(i as int));
            env.insert(vars[i].0.clone(), vars[i].1.clone());
            i += 1;
        }
        assert(string_pairs(vars@).take(i as int) =~= string_pairs(vars@));
        env
    }

    /// The value of `name`, if the snapshot holds the variable.
    pub fn get(&self, name: &str) -> (r: Option<&String>)
        ensures
            match r {
                Some(value) => self@.contains_key(name@) && value@ == self@[name@],
                None => !self@.contains_key(name@),
            },
    {
        let key = String::from_str(name);
        let ghost pairs = pairs_of(self.vars@);
        let mut i: usize = self.vars.len();
        while i > 0
            invariant
                i <= self.vars.len(),
                key@ == name@,
                pairs == pairs_of(self.vars@),
                forall|j: int| i <= j < pairs.len() ==> #[trigger] key_at(pairs, j) != name@,
            decreases i,
        {
            i -= 1;
            if self.vars[i].name == key {
                proof {
                    lemma_to_map_last(pairs, i as int);
                }
                return Some(&self.vars[i].value);
            }
        }
        proof {
            lemma_to_map_dom(pairs, name@);
        }
        None
    }

    /// Whether the snapshot holds the variable `name`.
    pub fn contains_key(&self, name: &str) -> (r: bool)
        ensures
            r == self@.contains_key(name@),
    {
        self.get(name).is_some()
    }
}

} // verus!
