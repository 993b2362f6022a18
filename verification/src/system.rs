//! Facts about the system that builds: operating system, toolchain.

use crate::assoc::{lookup, Key};
use crate::channel::BuildRustChannel;
use crate::env::EnvSnapshot;
use crate::project::fact_from_env;
use crate::store::FactStore;
use crate::text::{opt_view, single_line};
use crate::value::{known, known_or_fallback, ConstVal, ConstValView};
use vstd::prelude::*;

verus! {

/// The operating system and architecture of the build.
pub const BUILD_OS: &'static str = "BUILD_OS";

/// The version of the compiler, as it reports it.
pub const RUST_VERSION: &'static str = "RUST_VERSION";

/// The channel of the toolchain.
pub const RUST_CHANNEL: &'static str = "RUST_CHANNEL";

/// The version of cargo, as it reports it.
pub const CARGO_VERSION: &'static str = "CARGO_VERSION";

/// Whether the build is one for debugging or for release.
pub const BUILD_RUST_CHANNEL: &'static str = "BUILD_RUST_CHANNEL";

/// The description of `BUILD_OS`.
pub const BUILD_OS_DOC: &'static str = "display build system os";

/// The description of `RUST_VERSION`.
pub const RUST_VERSION_DOC: &'static str = "display build system rust version";

/// The description of `RUST_CHANNEL`.
pub const RUST_CHANNEL_DOC: &'static str = "display build system rust channel";

/// The description of `CARGO_VERSION`.
pub const CARGO_VERSION_DOC: &'static str = "display build system cargo version";

/// The description of `BUILD_RUST_CHANNEL`.
pub const BUILD_RUST_CHANNEL_DOC: &'static str =
    "display project build by rust channel [debug or release]";

/// The variable that holds the channel of the toolchain.
pub const RUSTUP_TOOLCHAIN: &'static str = "RUSTUP_TOOLCHAIN";

/// What stands between operating system and architecture.
pub const OS_ARCH_SEPARATOR: &'static str = "-";

/// What the toolchain and the machine report of themselves.
#[derive(Debug, PartialEq, Eq)]
pub struct ToolchainFacts {
    /// The operating system.
    pub os: String,
    /// The architecture of the processor.
    pub arch: String,
    /// The compiler's version, where it could be asked.
    pub rustc_version: Option<String>,
    /// Cargo's version, where it could be asked.
    pub cargo_version: Option<String>,
    /// The kind of build.
    pub channel: BuildRustChannel,
}

/// `ToolchainFacts` as contracts see it.
pub ghost struct ToolchainFactsView {
    pub os: Seq<char>,
    pub arch: Seq<char>,
    pub rustc_version: Option<Seq<char>>,
    pub cargo_version: Option<Seq<char>>,
    pub channel: BuildRustChannel,
}

impl View for ToolchainFacts {
    type V = ToolchainFactsView;

    open spec fn view(&self) -> ToolchainFactsView {
        ToolchainFactsView {
            os: self.os@,
            arch: self.arch@,
            rustc_version: opt_view(self.rustc_version),
            cargo_version: opt_view(self.cargo_version),
            channel: self.channel,
        }
    }
}

/// The identifier of operating system and architecture.
pub open spec fn os_arch(os: Seq<char>, arch: Seq<char>) -> Seq<char> {
    os + OS_ARCH_SEPARATOR@ + arch
}

/// The facts about the system, in the order in which they are written. What
/// the toolchain did not report, and a variable that the environment lacks,
/// give the fallback.
pub open spec fn system_facts(env: Map<Key, Seq<char>>, toolchain: ToolchainFactsView) -> Seq<
    (Key, ConstValView),
> {
    seq![
        (BUILD_OS@, known(BUILD_OS_DOC@, os_arch(toolchain.os, toolchain.arch))),
        (RUST_VERSION@, known_or_fallback(RUST_VERSION_DOC@, toolchain.rustc_version)),
        (RUST_CHANNEL@, known_or_fallback(RUST_CHANNEL_DOC@, lookup(env, RUSTUP_TOOLCHAIN@))),
        (CARGO_VERSION@, known_or_fallback(CARGO_VERSION_DOC@, toolchain.cargo_version)),
        (BUILD_RUST_CHANNEL@, known(BUILD_RUST_CHANNEL_DOC@, toolchain.channel.name())),
    ]
}

/// The lengths of the names of the facts about the system, and the
/// characters that tell names of one length apart, here and among the names
/// of the other collectors. No name holds a line feed.
pub proof fn lemma_system_name_shapes()
    ensures
        BUILD_OS@.len() == 8,
        RUST_VERSION@.len() == 12 && RUST_VERSION@[0] == 'R' && RUST_VERSION@[5] == 'V',
        RUST_CHANNEL@.len() == 12 && RUST_CHANNEL@[0] == 'R' && RUST_CHANNEL@[5] == 'C',
        CARGO_VERSION@.len() == 13 && CARGO_VERSION@[1] == 'A',
        BUILD_RUST_CHANNEL@.len() == 18,
        single_line(BUILD_OS@) && single_line(RUST_VERSION@) && single_line(RUST_CHANNEL@),
        single_line(CARGO_VERSION@) && single_line(BUILD_RUST_CHANNEL@),
{
    reveal_strlit("BUILD_OS");
    reveal_strlit("RUST_VERSION");
    reveal_strlit("RUST_CHANNEL");
    reveal_strlit("CARGO_VERSION");
    reveal_strlit("BUILD_RUST_CHANNEL");
}

/// No description of a fact about the system holds a line feed.
pub proof fn lemma_system_descriptions_single_line()
    ensures
        single_line(BUILD_OS_DOC@) && single_line(RUST_VERSION_DOC@),
        single_line(RUST_CHANNEL_DOC@) && single_line(CARGO_VERSION_DOC@),
        single_line(BUILD_RUST_CHANNEL_DOC@),
{
    reveal_strlit("display build system os");
    reveal_strlit("display build system rust version");
    reveal_strlit("display build system rust channel");
    reveal_strlit("display build system cargo version");
    reveal_strlit("display project build by rust channel [debug or release]");
}

/// The names of the facts about the system are pairwise different.
pub proof fn lemma_system_names_distinct()
    ensures
        BUILD_OS@ != RUST_VERSION@,
        BUILD_OS@ != RUST_CHANNEL@,
        BUILD_OS@ != CARGO_VERSION@,
        BUILD_OS@ != BUILD_RUST_CHANNEL@,
        RUST_VERSION@ != RUST_CHANNEL@,
        RUST_VERSION@ != CARGO_VERSION@,
        RUST_VERSION@ != BUILD_RUST_CHANNEL@,
        RUST_CHANNEL@ != CARGO_VERSION@,
        RUST_CHANNEL@ != BUILD_RUST_CHANNEL@,
        CARGO_VERSION@ != BUILD_RUST_CHANNEL@,
{
    lemma_system_name_shapes();
}

/// The identifier of operating system and architecture.
pub fn build_os(os: &str, arch: &str) -> (r: String)
    ensures
        r@ == os_arch(os@, arch@),
{
    let mut out = String::from_str(os);
    out.append(OS_ARCH_SEPARATOR);
    out.append(arch);
    out
}

/// Collects the facts about the system. Nothing here fails: what is missing
/// becomes the fallback.
pub fn new_system_env(env: &EnvSnapshot, toolchain: &ToolchainFacts) -> (r: FactStore)
    ensures
        r.wf(),
        r.entries() == system_facts(env@, toolchain@),
{
    proof {
        lemma_system_names_distinct();
    }
    let os = build_os(toolchain.os.as_str(), toolchain.arch.as_str());
    let mut store = FactStore::new();
    store.insert_fresh(BUILD_OS, ConstVal::with_value(BUILD_OS_DOC, os));
    store.insert_fresh(
        RUST_VERSION,
        ConstVal::from_option(RUST_VERSION_DOC, toolchain.rustc_version.clone()),
    );
    store.insert_fresh(RUST_CHANNEL, fact_from_env(env, RUSTUP_TOOLCHAIN, RUST_CHANNEL_DOC));
    store.insert_fresh(
        CARGO_VERSION,
        ConstVal::from_option(CARGO_VERSION_DOC, toolchain.cargo_version.clone()),
    );
    store.insert_fresh(
        BUILD_RUST_CHANNEL,
        ConstVal::with_value(BUILD_RUST_CHANNEL_DOC, toolchain.channel.to_string()),
    );
    store
}

} // verus!
