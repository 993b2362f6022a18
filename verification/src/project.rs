//! Facts about the project: its declared name and version, as the build
//! orchestration gives them in the environment.

use crate::assoc::{lookup, Key};
use crate::env::EnvSnapshot;
use crate::store::FactStore;
use crate::text::single_line;
use crate::value::{known_or_fallback, ConstVal, ConstValView};
use vstd::prelude::*;

verus! {

/// The declared name of the project.
pub const PROJECT_NAME: &'static str = "PROJECT_NAME";

/// The declared version of the package.
pub const PKG_VERSION: &'static str = "PKG_VERSION";

/// The description of `PROJECT_NAME`.
pub const PROJECT_NAME_DOC: &'static str = "display project name";

/// The description of `PKG_VERSION`.
pub const PKG_VERSION_DOC: &'static str = "display current project version";

/// The variable that holds the declared name.
pub const CARGO_PKG_NAME: &'static str = "CARGO_PKG_NAME";

/// The variable that holds the declared version.
pub const CARGO_PKG_VERSION: &'static str = "CARGO_PKG_VERSION";

/// The facts about the project, in the order in which they are written. A
/// variable that the environment lacks gives the fallback.
pub open spec fn project_facts(env: Map<Key, Seq<char>>) -> Seq<(Key, ConstValView)> {
    seq![
        (PROJECT_NAME@, known_or_fallback(PROJECT_NAME_DOC@, lookup(env, CARGO_PKG_NAME@))),
        (PKG_VERSION@, known_or_fallback(PKG_VERSION_DOC@, lookup(env, CARGO_PKG_VERSION@))),
    ]
}

/// The lengths of the names of the facts about the project, and the
/// characters that tell them apart from names of the same length among
/// those of the other collectors. No name holds a line feed.
pub proof fn lemma_project_name_shapes()
    ensures
        PROJECT_NAME@.len() == 12 && PROJECT_NAME@[0] == 'P',
        PKG_VERSION@.len() == 11 && PKG_VERSION@[0] == 'P',
        single_line(PROJECT_NAME@) && single_line(PKG_VERSION@),
{
    reveal_strlit("PROJECT_NAME");
    reveal_strlit("PKG_VERSION");
}

/// No description of a fact about the project holds a line feed.
pub proof fn lemma_project_descriptions_single_line()
    ensures
        single_line(PROJECT_NAME_DOC@) && single_line(PKG_VERSION_DOC@),
{
    reveal_strlit("display project name");
    reveal_strlit("display current project version");
}

/// The names of the facts about the project are different.
pub proof fn lemma_project_names_distinct()
    ensures
        PROJECT_NAME@ != PKG_VERSION@,
{
    lemma_project_name_shapes();
}

/// The fact that the variable `var` gives: its value where the snapshot
/// holds it, the fallback where it does not.
pub fn fact_from_env(env: &EnvSnapshot, var: &str, desc: &str) -> (r: ConstVal)
    ensures
        r@ == known_or_fallback(desc@, lookup(env@, var@)),
{
    match env.get(var) {
        Some(v) => ConstVal::with_value(desc, v.clone()),
        None => ConstVal::new(desc),
    }
}

/// Collects the facts about the project. Nothing here fails: what is
/// missing becomes the fallback.
pub fn new_project(env: &EnvSnapshot) -> (r: FactStore)
    ensures
        r.wf(),
        r.entries() == project_facts(env@),
{
    proof {
        lemma_project_names_distinct();
    }
    let mut store = FactStore::new();
    store.insert_fresh(PROJECT_NAME, fact_from_env(env, CARGO_PKG_NAME, PROJECT_NAME_DOC));
    store.insert_fresh(PKG_VERSION, fact_from_env(env, CARGO_PKG_VERSION, PKG_VERSION_DOC));
    store
}

} // verus!
