//! Detection of the continuous-integration platform from the environment.

use crate::assoc::{lookup, Key};
use crate::env::EnvSnapshot;
use vstd::prelude::*;

verus! {

/// The platform a build runs on.
#[derive(Debug, Clone, Copy, PartialEq, Eq, Structural)]
pub enum CIType {
    /// GitLab CI.
    Gitlab,
    /// GitHub Actions.
    Github,
    /// No platform that is recognized.
    NoCi,
}

impl Default for CIType {
    fn default() -> (r: CIType)
        ensures
            r == CIType::NoCi,
    {
        CIType::NoCi
    }
}

/// The variable that GitLab CI sets.
pub const GITLAB_CI: &'static str = "GITLAB_CI";

/// The variable that GitHub Actions sets.
pub const GITHUB_ACTIONS: &'static str = "GITHUB_ACTIONS";

/// The value that a signal variable has on its platform.
pub const SIGNAL_ON: &'static str = "true";

/// The variable `name` is present and says that its platform is active.
pub open spec fn signals(env: Map<Key, Seq<char>>, name: Key) -> bool {
    lookup(env, name) == Some(SIGNAL_ON@)
}

/// The platform that an environment stands for. The signal variables are
/// tried in a fixed order, GitLab before GitHub, and the first that is on
/// decides; an environment in which two are on is misconfigured, and the
/// order settles it.
pub open spec fn detected(env: Map<Key, Seq<char>>) -> CIType {
    if signals(env, GITLAB_CI@) {
        CIType::Gitlab
    } else if signals(env, GITHUB_ACTIONS@) {
        CIType::Github
    } else {
        CIType::NoCi
    }
}

/// Whether the variable `name` of `env` is on.
fn is_on(env: &EnvSnapshot, name: &str) -> (r: bool)
    ensures
        r == signals(env@, name@),
{
    match env.get(name) {
        Some(value) => *value == String::from_str(SIGNAL_ON),
        None => false,
    }
}

/// Finds the platform that the snapshot was taken on.
pub fn detect(env: &EnvSnapshot) -> (r: CIType)
    ensures
        r == detected(env@),
{
    if is_on(env, GITLAB_CI) {
        CIType::Gitlab
    } else if is_on(env, GITHUB_ACTIONS) {
        CIType::Github
    } else {
        CIType::NoCi
    }
}

/// An environment without any signal variable stands for no platform.
pub proof fn lemma_no_signal_variable(env: Map<Key, Seq<char>>)
    requires
        !env.contains_key(GITLAB_CI@),
        !env.contains_key(GITHUB_ACTIONS@),
    ensures
        detected(env) == CIType::NoCi,
{
}

/// An environment in which no signal variable is on stands for no platform,
/// whatever else the variables say.
pub proof fn lemma_no_signal_on(env: Map<Key, Seq<char>>)
    requires
        !signals(env, GITLAB_CI@),
        !signals(env, GITHUB_ACTIONS@),
    ensures
        detected(env) == CIType::NoCi,
{
}

/// An environment in which exactly one signal variable is on stands for the
/// platform of that variable.
pub proof fn lemma_single_signal(env: Map<Key, Seq<char>>)
    ensures
        signals(env, GITLAB_CI@) && !signals(env, GITHUB_ACTIONS@) ==> detected(env)
            == CIType::Gitlab,
        signals(env, GITHUB_ACTIONS@) && !signals(env, GITLAB_CI@) ==> detected(env)
            == CIType::Github,
{
}

/// Only the signal variables count: two environments that agree on them
/// stand for the same platform.
pub proof fn lemma_only_signals_count(a: Map<Key, Seq<char>>, b: Map<Key, Seq<char>>)
    requires
        lookup(a, GITLAB_CI@) == lookup(b, GITLAB_CI@),
        lookup(a, GITHUB_ACTIONS@) == lookup(b, GITHUB_ACTIONS@),
    ensures
        detected(a) == detected(b),
{
}

} // verus!
