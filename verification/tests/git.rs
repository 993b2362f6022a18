use shadow_rs::ci::CIType;
use shadow_rs::env::EnvSnapshot;
use shadow_rs::git::{ci_branch_of, ci_commit_of, new_git, RepoFacts};
use shadow_rs::store::FactStore;
use shadow_rs::value::{ConstType, ConstVal};

fn snapshot(vars: &[(&str, &str)]) -> EnvSnapshot {
    let mut env = EnvSnapshot::new();
    for (k, v) in vars {
        env.insert(k.to_string(), v.to_string());
    }
    env
}

fn checkout() -> RepoFacts {
    RepoFacts {
        branch: "master".to_string(),
        commit_hash: "386741540d73c194a3028b96b92fdeb53ca2788a".to_string(),
        commit_author: "baoyachi".to_string(),
        commit_email: "xxx@gmail.com".to_string(),
        commit_date: "2020-08-16 13:12:52".to_string(),
        has_lock_file: true,
    }
}

fn names(store: &FactStore) -> Vec<String> {
    (0..store.len()).map(|i| store.name_at(i).unwrap().to_string()).collect()
}

fn literal(store: &FactStore, name: &str) -> String {
    store.get(name).unwrap().literal().to_string()
}

const VCS: [&str; 6] =
    ["BRANCH", "COMMIT_HASH", "COMMIT_AUTHOR", "COMMIT_EMAIL", "COMMIT_DATE", "CARGO_LOCK"];

#[test]
fn without_checkout_every_vcs_fact_is_the_fallback() {
    let store = new_git(&None, CIType::NoCi, &EnvSnapshot::new(), "2020-08-16 13:48:52");
    assert_eq!(store.len(), 7);
    for name in VCS {
        let val = store.get(name).unwrap();
        assert_eq!(val.t, ConstType::OptStr);
        assert_eq!(val.v, "");
        assert_eq!(val.literal(), "");
    }
    assert_eq!(store.get("BRANCH"), Some(&ConstVal::new("display current branch")));
    assert_eq!(store.get("COMMIT_HASH"), Some(&ConstVal::new("display current commit_id")));
}

#[test]
fn without_checkout_the_platform_does_not_fill_in() {
    let env = snapshot(&[
        ("GITHUB_ACTIONS", "true"),
        ("GITHUB_REF", "refs/heads/main"),
        ("GITHUB_SHA", "abc"),
        ("CI_COMMIT_REF_NAME", "dev"),
        ("CI_COMMIT_SHA", "def"),
    ]);
    for ci in [CIType::Github, CIType::Gitlab, CIType::NoCi] {
        let store = new_git(&None, ci, &env, "now");
        for name in VCS {
            assert_eq!(store.get(name).unwrap().t, ConstType::OptStr);
            assert_eq!(literal(&store, name), "");
        }
    }
}

#[test]
fn build_time_is_known_with_and_without_checkout() {
    let env = EnvSnapshot::new();
    let without = new_git(&None, CIType::NoCi, &env, "2020-08-16 13:48:52");
    let with = new_git(&Some(checkout()), CIType::NoCi, &env, "2020-08-16 13:48:52");
    let expected = ConstVal::with_value("display project build time", "2020-08-16 13:48:52".to_string());
    assert_eq!(without.get("BUILD_TIME"), Some(&expected));
    assert_eq!(with.get("BUILD_TIME"), Some(&expected));
}

#[test]
fn facts_come_in_a_fixed_order() {
    let expected = vec![
        "BRANCH",
        "COMMIT_HASH",
        "COMMIT_AUTHOR",
        "COMMIT_EMAIL",
        "COMMIT_DATE",
        "CARGO_LOCK",
        "BUILD_TIME",
    ];
    let env = EnvSnapshot::new();
    assert_eq!(names(&new_git(&None, CIType::NoCi, &env, "t")), expected);
    assert_eq!(names(&new_git(&Some(checkout()), CIType::Github, &env, "t")), expected);
}

#[test]
fn checkout_facts_are_taken_as_read() {
    let store = new_git(&Some(checkout()), CIType::NoCi, &EnvSnapshot::new(), "t");
    assert_eq!(
        store.get("BRANCH"),
        Some(&ConstVal::with_value("display current branch", "master".to_string()))
    );
    assert_eq!(literal(&store, "COMMIT_HASH"), "386741540d73c194a3028b96b92fdeb53ca2788a");
    assert_eq!(
        store.get("COMMIT_AUTHOR"),
        Some(&ConstVal::with_value("display current commit author", "baoyachi".to_string()))
    );
    assert_eq!(
        store.get("COMMIT_EMAIL"),
        Some(&ConstVal::with_value("display current commit email", "xxx@gmail.com".to_string()))
    );
    assert_eq!(
        store.get("COMMIT_DATE"),
        Some(&ConstVal::with_value("display current commit date", "2020-08-16 13:12:52".to_string()))
    );
    assert_eq!(
        store.get("CARGO_LOCK"),
        Some(&ConstVal::optional("display whether the dependencies are locked", "true".to_string()))
    );
    assert_eq!(literal(&store, "CARGO_LOCK"), "");
}

#[test]
fn missing_lock_file_is_recorded() {
    let mut repo = checkout();
    repo.has_lock_file = false;
    let store = new_git(&Some(repo), CIType::NoCi, &EnvSnapshot::new(), "t");
    assert_eq!(
        store.get("CARGO_LOCK"),
        Some(&ConstVal::optional("display whether the dependencies are locked", "false".to_string()))
    );
    assert_eq!(literal(&store, "CARGO_LOCK"), "");
}

#[test]
fn github_branch_and_commit_win_over_the_checkout() {
    let env = snapshot(&[("GITHUB_REF", "refs/heads/feature/x"), ("GITHUB_SHA", "0123abc")]);
    let mut repo = checkout();
    repo.branch = "HEAD".to_string();
    let store = new_git(&Some(repo), CIType::Github, &env, "t");
    assert_eq!(literal(&store, "BRANCH"), "feature/x");
    assert_eq!(literal(&store, "COMMIT_HASH"), "0123abc");
    assert_eq!(literal(&store, "COMMIT_AUTHOR"), "baoyachi");
}

#[test]
fn github_ref_that_is_no_branch_leaves_the_local_branch() {
    let env = snapshot(&[("GITHUB_REF", "refs/tags/v1.0.0")]);
    let store = new_git(&Some(checkout()), CIType::Github, &env, "t");
    assert_eq!(literal(&store, "BRANCH"), "master");
    let env = snapshot(&[("GITHUB_REF", "refs/pull/7/merge")]);
    let store = new_git(&Some(checkout()), CIType::Github, &env, "t");
    assert_eq!(literal(&store, "BRANCH"), "master");
}

#[test]
fn gitlab_branch_and_commit_win_over_the_checkout() {
    let env = snapshot(&[("CI_COMMIT_REF_NAME", "release"), ("CI_COMMIT_SHA", "fedcba")]);
    let store = new_git(&Some(checkout()), CIType::Gitlab, &env, "t");
    assert_eq!(literal(&store, "BRANCH"), "release");
    assert_eq!(literal(&store, "COMMIT_HASH"), "fedcba");
}

#[test]
fn platform_that_says_nothing_leaves_the_local_values() {
    let env = EnvSnapshot::new();
    for ci in [CIType::Github, CIType::Gitlab] {
        let store = new_git(&Some(checkout()), ci, &env, "t");
        assert_eq!(literal(&store, "BRANCH"), "master");
        assert_eq!(literal(&store, "COMMIT_HASH"), "386741540d73c194a3028b96b92fdeb53ca2788a");
    }
}

#[test]
fn variables_of_another_platform_do_not_count() {
    let env = snapshot(&[
        ("GITHUB_REF", "refs/heads/gh"),
        ("GITHUB_SHA", "gh-sha"),
        ("CI_COMMIT_REF_NAME", "gl"),
        ("CI_COMMIT_SHA", "gl-sha"),
    ]);
    let none = new_git(&Some(checkout()), CIType::NoCi, &env, "t");
    assert_eq!(literal(&none, "BRANCH"), "master");
    assert_eq!(literal(&none, "COMMIT_HASH"), "386741540d73c194a3028b96b92fdeb53ca2788a");
    let github = new_git(&Some(checkout()), CIType::Github, &env, "t");
    assert_eq!(literal(&github, "BRANCH"), "gh");
    assert_eq!(literal(&github, "COMMIT_HASH"), "gh-sha");
    let gitlab = new_git(&Some(checkout()), CIType::Gitlab, &env, "t");
    assert_eq!(literal(&gitlab, "BRANCH"), "gl");
    assert_eq!(literal(&gitlab, "COMMIT_HASH"), "gl-sha");
}

#[test]
fn ci_branch_by_platform() {
    let env = snapshot(&[("GITHUB_REF", "refs/heads/main"), ("CI_COMMIT_REF_NAME", "dev")]);
    assert_eq!(ci_branch_of(CIType::Github, &env), Some("main".to_string()));
    assert_eq!(ci_branch_of(CIType::Gitlab, &env), Some("dev".to_string()));
    assert_eq!(ci_branch_of(CIType::NoCi, &env), None);
    assert_eq!(ci_branch_of(CIType::Github, &EnvSnapshot::new()), None);
    assert_eq!(ci_branch_of(CIType::Gitlab, &EnvSnapshot::new()), None);
    assert_eq!(ci_branch_of(CIType::Github, &snapshot(&[("GITHUB_REF", "main")])), None);
}

#[test]
fn ci_commit_by_platform() {
    let env = snapshot(&[("GITHUB_SHA", "a1"), ("CI_COMMIT_SHA", "b2")]);
    assert_eq!(ci_commit_of(CIType::Github, &env), Some("a1".to_string()));
    assert_eq!(ci_commit_of(CIType::Gitlab, &env), Some("b2".to_string()));
    assert_eq!(ci_commit_of(CIType::NoCi, &env), None);
    assert_eq!(ci_commit_of(CIType::Github, &EnvSnapshot::new()), None);
}
