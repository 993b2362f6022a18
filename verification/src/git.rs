//! Facts about the checkout: commit, author, dates, branch.

use crate::assoc::{lemma_to_map_at, lookup, to_map, Key};
use crate::ci::CIType;
use crate::env::EnvSnapshot;
use crate::store::FactStore;
use crate::text::{opt_view, single_line, strip_prefix, stripped};
use crate::value::{fallback, known, optional, ConstType, ConstVal, ConstValView};
use vstd::prelude::*;

verus! {

/// The name of the current branch.
pub const BRANCH: &'static str = "BRANCH";

/// The hash of the current commit.
pub const COMMIT_HASH: &'static str = "COMMIT_HASH";

/// The author of the current commit.
pub const COMMIT_AUTHOR: &'static str = "COMMIT_AUTHOR";

/// The e-mail address of the author of the current commit.
pub const COMMIT_EMAIL: &'static str = "COMMIT_EMAIL";

/// The date of the current commit.
pub const COMMIT_DATE: &'static str = "COMMIT_DATE";

/// Whether the source directory holds a lock file of the dependencies. The
/// constant is of optional type: what was found stays in the store, and the
/// declaration holds the empty literal.
pub const CARGO_LOCK: &'static str = "CARGO_LOCK";

/// The time of the build.
pub const BUILD_TIME: &'static str = "BUILD_TIME";

/// The description of `BRANCH`.
pub const BRANCH_DOC: &'static str = "display current branch";

/// The description of `COMMIT_HASH`.
pub const COMMIT_HASH_DOC: &'static str = "display current commit_id";

/// The description of `COMMIT_AUTHOR`.
pub const COMMIT_AUTHOR_DOC: &'static str = "display current commit author";

/// The description of `COMMIT_EMAIL`.
pub const COMMIT_EMAIL_DOC: &'static str = "display current commit email";

/// The description of `COMMIT_DATE`.
pub const COMMIT_DATE_DOC: &'static str = "display current commit date";

/// The description of `CARGO_LOCK`.
pub const CARGO_LOCK_DOC: &'static str = "display whether the dependencies are locked";

/// The description of `BUILD_TIME`.
pub const BUILD_TIME_DOC: &'static str = "display project build time";

/// The variable in which GitLab CI gives the branch or tag that is built.
pub const CI_COMMIT_REF_NAME: &'static str = "CI_COMMIT_REF_NAME";

/// The variable in which GitLab CI gives the commit that is built.
pub const CI_COMMIT_SHA: &'static str = "CI_COMMIT_SHA";

/// The variable in which GitHub Actions gives the ref that is built.
pub const GITHUB_REF: &'static str = "GITHUB_REF";

/// The variable in which GitHub Actions gives the commit that is built.
pub const GITHUB_SHA: &'static str = "GITHUB_SHA";

/// The prefix of a ref that names a branch.
pub const REFS_HEADS: &'static str = "refs/heads/";

/// What is collected for `CARGO_LOCK` where the lock file is there.
pub const LOCKED: &'static str = "true";

/// What is collected for `CARGO_LOCK` where it is not.
pub const UNLOCKED: &'static str = "false";

/// What was read from a checkout.
#[derive(Debug, PartialEq, Eq)]
pub struct RepoFacts {
    /// The branch that the checkout is on, as the repository names it.
    pub branch: String,
    /// The hash of the commit that is checked out.
    pub commit_hash: String,
    /// The name of that commit's author.
    pub commit_author: String,
    /// The e-mail address of that commit's author.
    pub commit_email: String,
    /// The date of that commit.
    pub commit_date: String,
    /// Whether the source directory holds a lock file of the dependencies.
    pub has_lock_file: bool,
}

/// `RepoFacts` as contracts see it.
pub ghost struct RepoFactsView {
    pub branch: Seq<char>,
    pub commit_hash: Seq<char>,
    pub commit_author: Seq<char>,
    pub commit_email: Seq<char>,
    pub commit_date: Seq<char>,
    pub has_lock_file: bool,
}

impl View for RepoFacts {
    type V = RepoFactsView;

    open spec fn view(&self) -> RepoFactsView {
        RepoFactsView {
            branch: self.branch@,
            commit_hash: self.commit_hash@,
            commit_author: self.commit_author@,
            commit_email: self.commit_email@,
            commit_date: self.commit_date@,
            has_lock_file: self.has_lock_file,
        }
    }
}

/// The view of a checkout that may not be there.
pub open spec fn repo_view(repo: Option<RepoFacts>) -> Option<RepoFactsView> {
    match repo {
        Some(r) => Some(r@),
        None => None,
    }
}

/// The branch that the platform names in the environment, if it names one.
/// GitLab CI gives the name itself; GitHub Actions gives a ref, which names
/// a branch only under `refs/heads/`.
pub open spec fn ci_branch(ci: CIType, env: Map<Key, Seq<char>>) -> Option<Seq<char>> {
    match ci {
        CIType::Gitlab => lookup(env, CI_COMMIT_REF_NAME@),
        CIType::Github => match lookup(env, GITHUB_REF@) {
            Some(r) => stripped(r, REFS_HEADS@),
            None => None,
        },
        CIType::NoCi => None,
    }
}

/// The commit that the platform names in the environment, if it names one.
pub open spec fn ci_commit(ci: CIType, env: Map<Key, Seq<char>>) -> Option<Seq<char>> {
    match ci {
        CIType::Gitlab => lookup(env, CI_COMMIT_SHA@),
        CIType::Github => lookup(env, GITHUB_SHA@),
        CIType::NoCi => None,
    }
}

/// What the platform says where it says something, the local value where it
/// does not: on a platform checkouts are often shallow or detached, so its
/// word counts for more than the repository's.
pub open spec fn preferred(from_ci: Option<Seq<char>>, local: Seq<char>) -> Seq<char> {
    match from_ci {
        Some(v) => v,
        None => local,
    }
}

/// What is collected for `CARGO_LOCK`.
pub open spec fn lock_text(has_lock_file: bool) -> Seq<char> {
    if has_lock_file {
        LOCKED@
    } else {
        UNLOCKED@
    }
}

/// The facts about the checkout, in the order in which they are written.
/// Without a checkout every fact that comes from it is the fallback. The
/// time of the build is that of the clock, never that of the commit, and it
/// is known either way.
pub open spec fn git_facts(
    repo: Option<RepoFactsView>,
    ci: CIType,
    env: Map<Key, Seq<char>>,
    build_time: Seq<char>,
) -> Seq<(Key, ConstValView)> {
    match repo {
        Some(r) => seq![
            (BRANCH@, known(BRANCH_DOC@, preferred(ci_branch(ci, env), r.branch))),
            (COMMIT_HASH@, known(COMMIT_HASH_DOC@, preferred(ci_commit(ci, env), r.commit_hash))),
            (COMMIT_AUTHOR@, known(COMMIT_AUTHOR_DOC@, r.commit_author)),
            (COMMIT_EMAIL@, known(COMMIT_EMAIL_DOC@, r.commit_email)),
            (COMMIT_DATE@, known(COMMIT_DATE_DOC@, r.commit_date)),
            (CARGO_LOCK@, optional(CARGO_LOCK_DOC@, lock_text(r.has_lock_file))),
            (BUILD_TIME@, known(BUILD_TIME_DOC@, build_time)),
        ],
        None => seq![
            (BRANCH@, fallback(BRANCH_DOC@)),
            (COMMIT_HASH@, fallback(COMMIT_HASH_DOC@)),
            (COMMIT_AUTHOR@, fallback(COMMIT_AUTHOR_DOC@)),
            (COMMIT_EMAIL@, fallback(COMMIT_EMAIL_DOC@)),
            (COMMIT_DATE@, fallback(COMMIT_DATE_DOC@)),
            (CARGO_LOCK@, fallback(CARGO_LOCK_DOC@)),
            (BUILD_TIME@, known(BUILD_TIME_DOC@, build_time)),
        ],
    }
}

/// The lengths of the names of the facts about the checkout, and the
/// characters that tell names of one length apart, here and among the names
/// of the other collectors. No name holds a line feed.
pub proof fn lemma_git_name_shapes()
    ensures
        BRANCH@.len() == 6,
        COMMIT_HASH@.len() == 11 && COMMIT_HASH@[0] == 'C' && COMMIT_HASH@[7] == 'H',
        COMMIT_AUTHOR@.len() == 13 && COMMIT_AUTHOR@[1] == 'O',
        COMMIT_EMAIL@.len() == 12 && COMMIT_EMAIL@[0] == 'C',
        COMMIT_DATE@.len() == 11 && COMMIT_DATE@[0] == 'C' && COMMIT_DATE@[7] == 'D',
        CARGO_LOCK@.len() == 10 && CARGO_LOCK@[0] == 'C',
        BUILD_TIME@.len() == 10 && BUILD_TIME@[0] == 'B',
        single_line(BRANCH@) && single_line(COMMIT_HASH@) && single_line(COMMIT_AUTHOR@),
        single_line(COMMIT_EMAIL@) && single_line(COMMIT_DATE@) && single_line(CARGO_LOCK@),
        single_line(BUILD_TIME@),
{
    reveal_strlit("BRANCH");
    reveal_strlit("COMMIT_HASH");
    reveal_strlit("COMMIT_AUTHOR");
    reveal_strlit("COMMIT_EMAIL");
    reveal_strlit("COMMIT_DATE");
    reveal_strlit("CARGO_LOCK");
    reveal_strlit("BUILD_TIME");
}

/// No description of a fact about the checkout holds a line feed.
pub proof fn lemma_git_descriptions_single_line()
    ensures
        single_line(BRANCH_DOC@) && single_line(COMMIT_HASH_DOC@),
        single_line(COMMIT_AUTHOR_DOC@) && single_line(COMMIT_EMAIL_DOC@),
        single_line(COMMIT_DATE_DOC@) && single_line(CARGO_LOCK_DOC@),
        single_line(BUILD_TIME_DOC@),
{
    reveal_strlit("display current branch");
    reveal_strlit("display current commit_id");
    reveal_strlit("display current commit author");
    reveal_strlit("display current commit email");
    reveal_strlit("display current commit date");
    reveal_strlit("display whether the dependencies are locked");
    reveal_strlit("display project build time");
}

/// The names of the facts about the checkout are pairwise different.
pub proof fn lemma_git_names_distinct()
    ensures
        BRANCH@ != COMMIT_HASH@,
        BRANCH@ != COMMIT_AUTHOR@,
        BRANCH@ != COMMIT_EMAIL@,
        BRANCH@ != COMMIT_DATE@,
        BRANCH@ != CARGO_LOCK@,
        BRANCH@ != BUILD_TIME@,
        COMMIT_HASH@ != COMMIT_AUTHOR@,
        COMMIT_HASH@ != COMMIT_EMAIL@,
        COMMIT_HASH@ != COMMIT_DATE@,
        COMMIT_HASH@ != CARGO_LOCK@,
        COMMIT_HASH@ != BUILD_TIME@,
        COMMIT_AUTHOR@ != COMMIT_EMAIL@,
        COMMIT_AUTHOR@ != COMMIT_DATE@,
        COMMIT_AUTHOR@ != CARGO_LOCK@,
        COMMIT_AUTHOR@ != BUILD_TIME@,
        COMMIT_EMAIL@ != COMMIT_DATE@,
        COMMIT_EMAIL@ != CARGO_LOCK@,
        COMMIT_EMAIL@ != BUILD_TIME@,
        COMMIT_DATE@ != CARGO_LOCK@,
        COMMIT_DATE@ != BUILD_TIME@,
        CARGO_LOCK@ != BUILD_TIME@,
{
    lemma_git_name_shapes();
}

/// The names of the facts that come from the checkout itself.
pub open spec fn vcs_names() -> Seq<Key> {
    seq![BRANCH@, COMMIT_HASH@, COMMIT_AUTHOR@, COMMIT_EMAIL@, COMMIT_DATE@, CARGO_LOCK@]
}

/// Without a checkout every fact that comes from it is there and is the
/// fallback, on every platform and in every environment, so it is written
/// with an empty literal; the time of the build is known all the same.
pub proof fn lemma_without_checkout(
    ci: CIType,
    env: Map<Key, Seq<char>>,
    build_time: Seq<char>,
    i: int,
)
    requires
        0 <= i < vcs_names().len(),
    ensures
        to_map(git_facts(None, ci, env, build_time)).contains_key(vcs_names()[i]),
        to_map(git_facts(None, ci, env, build_time))[vcs_names()[i]].t == ConstType::OptStr,
        to_map(git_facts(None, ci, env, build_time))[vcs_names()[i]].literal() == Seq::<
            char,
        >::empty(),
        to_map(git_facts(None, ci, env, build_time))[BUILD_TIME@] == known(
            BUILD_TIME_DOC@,
            build_time,
        ),
{
    let facts = git_facts(None, ci, env, build_time);
    lemma_git_names_distinct();
    lemma_to_map_at(facts, i);
}

/// With or without a checkout, whatever was found of the lock file, the
/// declaration of `CARGO_LOCK` holds the empty literal.
pub proof fn lemma_lock_written_empty(
    repo: Option<RepoFactsView>,
    ci: CIType,
    env: Map<Key, Seq<char>>,
    build_time: Seq<char>,
)
    ensures
        to_map(git_facts(repo, ci, env, build_time)).contains_key(CARGO_LOCK@),
        to_map(git_facts(repo, ci, env, build_time))[CARGO_LOCK@].t == ConstType::OptStr,
        to_map(git_facts(repo, ci, env, build_time))[CARGO_LOCK@].literal() == Seq::<
            char,
        >::empty(),
{
    lemma_git_names_distinct();
    lemma_to_map_at(git_facts(repo, ci, env, build_time), 5);
}

/// The branch that the platform names in the environment, if it names one.
pub fn ci_branch_of(ci: CIType, env: &EnvSnapshot) -> (r: Option<String>)
    ensures
        opt_view(r) == ci_branch(ci, env@),
{
    match ci {
        CIType::Gitlab => match env.get(CI_COMMIT_REF_NAME) {
            Some(v) => Some(v.clone()),
            None => None,
        },
        CIType::Github => match env.get(GITHUB_REF) {
            Some(v) => strip_prefix(v.as_str(), REFS_HEADS),
            None => None,
        },
        CIType::NoCi => None,
    }
}

/// The commit that the platform names in the environment, if it names one.
pub fn ci_commit_of(ci: CIType, env: &EnvSnapshot) -> (r: Option<String>)
    ensures
        opt_view(r) == ci_commit(ci, env@),
{
    let name = match ci {
        CIType::Gitlab => CI_COMMIT_SHA,
        CIType::Github => GITHUB_SHA,
        CIType::NoCi => {
            return None;
        },
    };
    match env.get(name) {
        Some(v) => Some(v.clone()),
        None => None,
    }
}

/// The platform's value where there is one, a copy of the local value where
/// there is none.
fn prefer(from_ci: Option<String>, local: &String) -> (r: String)
    ensures
        r@ == preferred(opt_view(from_ci), local@),
{
    match from_ci {
        Some(v) => v,
        None => local.clone(),
    }
}

/// Collects the facts about the checkout. `repo` is what was read from the
/// source directory, or `None` where it is no checkout or could not be read:
/// then every fact of the checkout is the fallback, and nothing fails.
pub fn new_git(
    repo: &Option<RepoFacts>,
    ci: CIType,
    env: &EnvSnapshot,
    build_time: &str,
) -> (r: FactStore)
    ensures
        r.wf(),
        r.entries() == git_facts(repo_view(*repo), ci, env@, build_time@),
{
    proof {
        lemma_git_names_distinct();
    }
    let mut store = FactStore::new();
    match repo {
        Some(facts) => {
            let branch = prefer(ci_branch_of(ci, env), &facts.branch);
            let commit = prefer(ci_commit_of(ci, env), &facts.commit_hash);
            let lock = if facts.has_lock_file {
                LOCKED
            } else {
                UNLOCKED
            };
            store.insert_fresh(BRANCH, ConstVal::with_value(BRANCH_DOC, branch));
            store.insert_fresh(COMMIT_HASH, ConstVal::with_value(COMMIT_HASH_DOC, commit));
            store.insert_fresh(
                COMMIT_AUTHOR,
                ConstVal::with_value(COMMIT_AUTHOR_DOC, facts.commit_author.clone()),
            );
            store.insert_fresh(
                COMMIT_EMAIL,
                ConstVal::with_value(COMMIT_EMAIL_DOC, facts.commit_email.clone()),
            );
            store.insert_fresh(
                COMMIT_DATE,
                ConstVal::with_value(COMMIT_DATE_DOC, facts.commit_date.clone()),
            );
            store.insert_fresh(
                CARGO_LOCK,
                ConstVal::optional(CARGO_LOCK_DOC, String::from_str(lock)),
            );
        },
        None => {
            store.insert_fresh(BRANCH, ConstVal::new(BRANCH_DOC));
            store.insert_fresh(COMMIT_HASH, ConstVal::new(COMMIT_HASH_DOC));
            store.insert_fresh(COMMIT_AUTHOR, ConstVal::new(COMMIT_AUTHOR_DOC));
            store.insert_fresh(COMMIT_EMAIL, ConstVal::new(COMMIT_EMAIL_DOC));
            store.insert_fresh(COMMIT_DATE, ConstVal::new(COMMIT_DATE_DOC));
            store.insert_fresh(CARGO_LOCK, ConstVal::new(CARGO_LOCK_DOC));
        },
    }
    store.insert_fresh(
        BUILD_TIME,
        ConstVal::with_value(BUILD_TIME_DOC, String::from_str(build_time)),
    );
    store
}

} // verus!
