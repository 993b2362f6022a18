//! The whole run: detect the platform, collect the facts, merge them, and
//! give the text of the file and the path it belongs at.

use crate::assoc::{distinct_keys, key_at, lemma_put_all_disjoint, Key};
use crate::ci::{detect, detected, CIType};
use crate::clock::{is_timestamp, time_or_empty, timestamp, timestamp_of, Clock};
use crate::codegen::{
    body_text, const_text, distinct_identifiers, escaped, file_text, generate, header_text,
    lemma_body_lines, lemma_body_text_concat, lemma_header_lines, lemma_timestamp_is_plain,
    single_line_entries,
};
use crate::env::EnvSnapshot;
use crate::git::{
    git_facts, lemma_git_descriptions_single_line, lemma_git_name_shapes,
    lemma_git_names_distinct, new_git, repo_view, RepoFacts, RepoFactsView, BRANCH, BRANCH_DOC,
    BUILD_TIME, CARGO_LOCK, COMMIT_AUTHOR, COMMIT_DATE, COMMIT_EMAIL, COMMIT_HASH,
};
use crate::project::{
    lemma_project_descriptions_single_line, lemma_project_name_shapes,
    lemma_project_names_distinct, new_project, project_facts, PKG_VERSION, PROJECT_NAME,
};
use crate::store::{entries_of, merge, merged_entries, FactStore};
use crate::system::{
    lemma_system_descriptions_single_line, lemma_system_name_shapes,
    lemma_system_names_distinct, new_system_env, system_facts, ToolchainFacts,
    ToolchainFactsView, CARGO_VERSION, RUST_CHANNEL, RUST_VERSION,
};
use crate::text::{
    ascii_upper, ends_with_char, lemma_line_feeds_concat, line_feeds, opt_view, single_line,
};
use crate::value::{fallback, ConstValView};
use vstd::prelude::*;

verus! {

/// The name of the generated file.
pub const SHADOW_RS: &'static str = "shadow.rs";

/// What separates the parts of a path.
pub const SEPARATOR: &'static str = "/";

/// The path of the generated file in the directory `dir`: the fixed name
/// behind one separator, which is added where `dir` does not end in one.
pub open spec fn out_file(dir: Seq<char>) -> Seq<char> {
    if dir.len() > 0 && dir.last() == '/' {
        dir + SHADOW_RS@
    } else {
        dir + SEPARATOR@ + SHADOW_RS@
    }
}

/// The path of the generated file in the directory `out_path`.
pub fn out_file_path(out_path: &str) -> (r: String)
    ensures
        r@ == out_file(out_path@),
{
    let mut out = String::from_str(out_path);
    if !ends_with_char(out_path, '/') {
        out.append(SEPARATOR);
    }
    out.append(SHADOW_RS);
    out
}

/// A directory gives the same path with and without a separator at its
/// end, and the separator is never doubled.
pub proof fn lemma_trailing_separator(dir: Seq<char>)
    requires
        !(dir.len() > 0 && dir.last() == '/'),
    ensures
        out_file(dir + SEPARATOR@) == out_file(dir),
        out_file(dir) == dir + SEPARATOR@ + SHADOW_RS@,
{
    reveal_strlit("/");
    assert((dir + SEPARATOR@).last() == '/');
}

/// All facts of one run, in the order in which they are written: the three
/// fragments merged, the checkout first, then the project, then the system.
pub open spec fn collected(
    env: Map<Key, Seq<char>>,
    repo: Option<RepoFactsView>,
    toolchain: ToolchainFactsView,
    now: Seq<char>,
) -> Seq<(Key, ConstValView)> {
    merged_entries(
        seq![
            git_facts(repo, detected(env), env, now),
            project_facts(env),
            system_facts(env, toolchain),
        ],
    )
}

/// The collectors own disjoint sets of names, so merging overwrites
/// nothing: the facts of one run are those of the checkout, then those of
/// the project, then those of the system, each name once.
pub proof fn lemma_collected_in_order(
    env: Map<Key, Seq<char>>,
    repo: Option<RepoFactsView>,
    toolchain: ToolchainFactsView,
    now: Seq<char>,
)
    ensures
        collected(env, repo, toolchain, now) == git_facts(repo, detected(env), env, now)
            + project_facts(env) + system_facts(env, toolchain),
        collected(env, repo, toolchain, now).len() == 14,
        distinct_keys(collected(env, repo, toolchain, now)),
{
    let g = git_facts(repo, detected(env), env, now);
    let p = project_facts(env);
    let s = system_facts(env, toolchain);
    let fragments = seq![g, p, s];

    // Within one collector the names differ.
    lemma_git_names_distinct();
    lemma_project_names_distinct();
    lemma_system_names_distinct();

    // Across collectors they differ in length, or in one of the first two
    // characters where the lengths agree.
    lemma_git_name_shapes();
    lemma_project_name_shapes();
    lemma_system_name_shapes();

    // So each fragment is appended to those before it.
    let empty = Seq::<(Key, ConstValView)>::empty();
    lemma_put_all_disjoint(empty, g);
    lemma_put_all_disjoint(g, p);
    lemma_put_all_disjoint(g + p, s);
    assert(fragments.drop_last() =~= seq![g, p]);
    assert(seq![g, p].drop_last() =~= seq![g]);
    assert(seq![g].drop_last() =~= Seq::<Seq<(Key, ConstValView)>>::empty());
    assert(merged_entries(Seq::<Seq<(Key, ConstValView)>>::empty()) == empty);
    assert(merged_entries(seq![g]) == g) by {
        assert(empty + g =~= g);
    }
    assert(merged_entries(seq![g, p]) == g + p);
    assert(merged_entries(fragments) == g + p + s);
}

/// The names of one run stay different when they are upper-cased, so the
/// generated file declares every identifier once.
pub proof fn lemma_collected_identifiers(
    env: Map<Key, Seq<char>>,
    repo: Option<RepoFactsView>,
    toolchain: ToolchainFactsView,
    now: Seq<char>,
)
    ensures
        distinct_identifiers(collected(env, repo, toolchain, now)),
{
    let all = collected(env, repo, toolchain, now);
    lemma_collected_in_order(env, repo, toolchain, now);
    lemma_git_name_shapes();
    lemma_project_name_shapes();
    lemma_system_name_shapes();
    assert(ascii_upper(COMMIT_HASH@)[7] != ascii_upper(COMMIT_DATE@)[7]);
    assert(ascii_upper(COMMIT_HASH@)[0] != ascii_upper(PKG_VERSION@)[0]);
    assert(ascii_upper(COMMIT_DATE@)[0] != ascii_upper(PKG_VERSION@)[0]);
    assert(ascii_upper(CARGO_LOCK@)[0] != ascii_upper(BUILD_TIME@)[0]);
    assert(ascii_upper(COMMIT_EMAIL@)[0] != ascii_upper(PROJECT_NAME@)[0]);
    assert(ascii_upper(COMMIT_EMAIL@)[0] != ascii_upper(RUST_VERSION@)[0]);
    assert(ascii_upper(COMMIT_EMAIL@)[0] != ascii_upper(RUST_CHANNEL@)[0]);
    assert(ascii_upper(PROJECT_NAME@)[0] != ascii_upper(RUST_VERSION@)[0]);
    assert(ascii_upper(PROJECT_NAME@)[0] != ascii_upper(RUST_CHANNEL@)[0]);
    assert(ascii_upper(RUST_VERSION@)[5] != ascii_upper(RUST_CHANNEL@)[5]);
    assert(ascii_upper(COMMIT_AUTHOR@)[1] != ascii_upper(CARGO_VERSION@)[1]);
    assert forall|i: int, j: int| 0 <= i < j < all.len() implies #[trigger] ascii_upper(
        key_at(all, i),
    ) != #[trigger] ascii_upper(key_at(all, j)) by {
        assert(ascii_upper(key_at(all, i)).len() == key_at(all, i).len());
        assert(ascii_upper(key_at(all, j)).len() == key_at(all, j).len());
    }
}

/// The file of a run has a fixed number of lines, whatever was collected:
/// four of the header and three for each of the fourteen facts. No name and
/// no description holds a line feed, and one in a value is spelled out.
pub proof fn lemma_run_lines(
    env: Map<Key, Seq<char>>,
    repo: Option<RepoFactsView>,
    toolchain: ToolchainFactsView,
    now: Seq<char>,
)
    requires
        single_line(now),
    ensures
        single_line_entries(collected(env, repo, toolchain, now)),
        line_feeds(file_text(now, collected(env, repo, toolchain, now))) == 46,
{
    let all = collected(env, repo, toolchain, now);
    lemma_collected_in_order(env, repo, toolchain, now);
    lemma_git_name_shapes();
    lemma_project_name_shapes();
    lemma_system_name_shapes();
    lemma_git_descriptions_single_line();
    lemma_project_descriptions_single_line();
    lemma_system_descriptions_single_line();
    assert forall|i: int| 0 <= i < all.len() implies single_line(#[trigger] key_at(all, i))
        && single_line(all[i].1.desc) by {}
    lemma_body_lines(all);
    lemma_header_lines(now);
    lemma_line_feeds_concat(header_text(now), body_text(all));
}

/// The declaration of the branch in a run without a checkout, as it stands
/// in the file.
pub const BRANCH_UNKNOWN: &'static str =
    "/// display current branch\npub const BRANCH :&str = \"\";\n\n";

/// Without a checkout the file declares the branch with the empty literal,
/// right behind the header, whatever the environment and the toolchain
/// say.
pub proof fn lemma_branch_without_checkout(
    env: Map<Key, Seq<char>>,
    toolchain: ToolchainFactsView,
    now: Seq<char>,
)
    ensures
        file_text(now, collected(env, None, toolchain, now)) == header_text(now) + BRANCH_UNKNOWN@
            + body_text(collected(env, None, toolchain, now).skip(1)),
{
    let all = collected(env, None, toolchain, now);
    let first = seq![all[0]];
    lemma_collected_in_order(env, None, toolchain, now);
    assert(all[0] == (BRANCH@, fallback(BRANCH_DOC@)));
    assert(all =~= first + all.skip(1));
    lemma_body_text_concat(first, all.skip(1));
    assert(body_text(first) =~= const_text(BRANCH@, fallback(BRANCH_DOC@))) by {
        assert(first.drop_last() =~= Seq::<(Key, ConstValView)>::empty());
        assert(body_text(Seq::<(Key, ConstValView)>::empty()) =~= Seq::<char>::empty());
    }
    assert(const_text(BRANCH@, fallback(BRANCH_DOC@)) =~= BRANCH_UNKNOWN@) by {
        reveal_strlit("BRANCH");
        reveal_strlit("display current branch");
        reveal_strlit("/// ");
        reveal_strlit("\npub const ");
        reveal_strlit(" :");
        reveal_strlit("&str");
        reveal_strlit(" = \"");
        reveal_strlit("\";\n\n");
        reveal_strlit("/// display current branch\npub const BRANCH :&str = \"\";\n\n");
        assert(ascii_upper(BRANCH@) =~= BRANCH@);
        assert(escaped(Seq::<char>::empty()) =~= Seq::<char>::empty());
    }
    assert(file_text(now, all) =~= header_text(now) + BRANCH_UNKNOWN@ + body_text(all.skip(1)));
}

/// One run of the generator: the facts that were collected, the environment
/// they were collected in, and the time at which the file is created.
#[derive(Debug)]
pub struct Shadow {
    map: FactStore,
    std_env: EnvSnapshot,
    created: String,
}

impl Shadow {
    /// The facts of the run.
    pub closed spec fn facts(&self) -> FactStore {
        self.map
    }

    /// The environment of the run.
    pub closed spec fn env(&self) -> Map<Key, Seq<char>> {
        self.std_env@
    }

    /// The time of creation that the header shows.
    pub closed spec fn created(&self) -> Seq<char> {
        self.created@
    }

    /// The facts of the run.
    pub fn store(&self) -> (r: &FactStore)
        ensures
            *r == self.facts(),
    {
        &self.map
    }

    /// The environment of the run.
    pub fn std_env(&self) -> (r: &EnvSnapshot)
        ensures
            r@ == self.env(),
    {
        &self.std_env
    }

    /// The time of creation that the header shows.
    pub fn create_time(&self) -> (r: &str)
        ensures
            r@ == self.created(),
    {
        self.created.as_str()
    }

    /// The platform that the run takes place on.
    pub fn try_ci(&self) -> (r: CIType)
        ensures
            r == detected(self.env()),
    {
        detect(&self.std_env)
    }

    /// Collects the facts of a run at the time given as text: detects the
    /// platform, collects the facts about the checkout, the project and the
    /// system, and merges them in that order. Where no time is given the
    /// run goes on without one: the header and the time of the build hold
    /// the empty text. Nothing is asked of the text; a line feed in it
    /// would add a line to the header.
    pub fn assemble(
        std_env: EnvSnapshot,
        repo: Option<RepoFacts>,
        toolchain: ToolchainFacts,
        time: Option<String>,
    ) -> (r: Shadow)
        ensures
            r.facts().wf(),
            r.env() == std_env@,
            r.created() == time_or_empty(opt_view(time)),
            r.facts().entries() == collected(
                std_env@,
                repo_view(repo),
                toolchain@,
                r.created(),
            ),
            r.facts().entries() == git_facts(
                repo_view(repo),
                detected(std_env@),
                std_env@,
                r.created(),
            ) + project_facts(std_env@) + system_facts(std_env@, toolchain@),
            distinct_identifiers(r.facts().entries()),
            single_line(r.created()) ==> line_feeds(
                file_text(r.created(), r.facts().entries()),
            ) == 46,
    {
        let now = match time {
            Some(t) => t,
            None => String::new(),
        };
        proof {
            lemma_collected_in_order(std_env@, repo_view(repo), toolchain@, now@);
            lemma_collected_identifiers(std_env@, repo_view(repo), toolchain@, now@);
            if single_line(now@) {
                lemma_run_lines(std_env@, repo_view(repo), toolchain@, now@);
            }
        }
        let ci = detect(&std_env);
        let mut fragments: Vec<FactStore> = Vec::new();
        fragments.push(new_git(&repo, ci, &std_env, now.as_str()));
        fragments.push(new_project(&std_env));
        fragments.push(new_system_env(&std_env, &toolchain));
        let map = merge(&fragments);
        assert(entries_of(fragments@) =~= seq![
            git_facts(repo_view(repo), detected(std_env@), std_env@, now@),
            project_facts(std_env@),
            system_facts(std_env@, toolchain@),
        ]);
        Shadow { map, std_env, created: now }
    }

    /// Collects the facts of a run at the time that the clock showed. The
    /// time of the build and the time in the header are the one reading,
    /// written as local time; a reading that cannot be written is left
    /// out, and the run goes on without a time. Everything is decided by
    /// the arguments.
    pub fn build(
        std_env: EnvSnapshot,
        repo: Option<RepoFacts>,
        toolchain: ToolchainFacts,
        clock: Clock,
    ) -> (r: Shadow)
        ensures
            r.facts().wf(),
            r.env() == std_env@,
            r.created() == time_or_empty(timestamp_of(clock)),
            timestamp_of(clock) is Some ==> is_timestamp(r.created()),
            r.facts().entries() == collected(
                std_env@,
                repo_view(repo),
                toolchain@,
                r.created(),
            ),
            r.facts().entries() == git_facts(
                repo_view(repo),
                detected(std_env@),
                std_env@,
                r.created(),
            ) + project_facts(std_env@) + system_facts(std_env@, toolchain@),
            distinct_identifiers(r.facts().entries()),
            line_feeds(file_text(r.created(), r.facts().entries())) == 46,
    {
        let time = timestamp(clock);
        proof {
            if timestamp_of(clock) is Some {
                lemma_timestamp_is_plain(timestamp_of(clock)->0);
            }
        }
        Shadow::assemble(std_env, repo, toolchain, time)
    }

    /// The header of the generated file.
    pub fn write_header(&self) -> (r: String)
        ensures
            r@ == header_text(self.created()),
    {
        crate::codegen::write_header(self.created.as_str())
    }

    /// The text of the generated file: the header, then one declaration for
    /// each fact, in the order of the store.
    pub fn gen_const(&self) -> (r: String)
        ensures
            r@ == file_text(self.created(), self.facts().entries()),
    {
        generate(&self.map, self.created.as_str())
    }
}

} // verus!
