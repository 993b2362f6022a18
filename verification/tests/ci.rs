use shadow_rs::ci::{detect, CIType};
use shadow_rs::env::EnvSnapshot;

fn snapshot(vars: &[(&str, &str)]) -> EnvSnapshot {
    let mut env = EnvSnapshot::new();
    for (k, v) in vars {
        env.insert(k.to_string(), v.to_string());
    }
    env
}

#[test]
fn github_actions_is_detected() {
    let env = snapshot(&[("GITHUB_ACTIONS", "true")]);
    assert_eq!(detect(&env), CIType::Github);
}

#[test]
fn gitlab_ci_is_detected() {
    let env = snapshot(&[("GITLAB_CI", "true")]);
    assert_eq!(detect(&env), CIType::Gitlab);
}

#[test]
fn empty_snapshot_is_no_platform() {
    assert_eq!(detect(&EnvSnapshot::new()), CIType::NoCi);
}

#[test]
fn snapshot_without_signal_is_no_platform() {
    let env = snapshot(&[("HOME", "/root"), ("CI", "true"), ("TRAVIS", "true")]);
    assert_eq!(detect(&env), CIType::NoCi);
}

#[test]
fn signal_must_say_true() {
    assert_eq!(detect(&snapshot(&[("GITHUB_ACTIONS", "false")])), CIType::NoCi);
    assert_eq!(detect(&snapshot(&[("GITHUB_ACTIONS", "")])), CIType::NoCi);
    assert_eq!(detect(&snapshot(&[("GITHUB_ACTIONS", "TRUE")])), CIType::NoCi);
    assert_eq!(detect(&snapshot(&[("GITLAB_CI", "1")])), CIType::NoCi);
    assert_eq!(detect(&snapshot(&[("GITLAB_CI", "true ")])), CIType::NoCi);
}

#[test]
fn signal_name_is_exact() {
    assert_eq!(detect(&snapshot(&[("github_actions", "true")])), CIType::NoCi);
    assert_eq!(detect(&snapshot(&[("GITLAB_CI_", "true")])), CIType::NoCi);
}

#[test]
fn gitlab_comes_first_when_both_are_on() {
    let env = snapshot(&[("GITHUB_ACTIONS", "true"), ("GITLAB_CI", "true")]);
    assert_eq!(detect(&env), CIType::Gitlab);
    let env = snapshot(&[("GITLAB_CI", "true"), ("GITHUB_ACTIONS", "true")]);
    assert_eq!(detect(&env), CIType::Gitlab);
}

#[test]
fn one_signal_on_and_the_other_off() {
    let env = snapshot(&[("GITLAB_CI", "false"), ("GITHUB_ACTIONS", "true")]);
    assert_eq!(detect(&env), CIType::Github);
    let env = snapshot(&[("GITLAB_CI", "true"), ("GITHUB_ACTIONS", "no")]);
    assert_eq!(detect(&env), CIType::Gitlab);
}

#[test]
fn other_variables_do_not_count() {
    let plain = snapshot(&[("GITHUB_ACTIONS", "true")]);
    let busy = snapshot(&[
        ("PATH", "/usr/bin"),
        ("GITHUB_ACTIONS", "true"),
        ("GITHUB_REF", "refs/heads/main"),
        ("CI", "true"),
    ]);
    assert_eq!(detect(&plain), detect(&busy));
}

#[test]
fn later_value_of_a_signal_counts() {
    let env = snapshot(&[("GITHUB_ACTIONS", "true"), ("GITHUB_ACTIONS", "false")]);
    assert_eq!(detect(&env), CIType::NoCi);
    let env = snapshot(&[("GITHUB_ACTIONS", "false"), ("GITHUB_ACTIONS", "true")]);
    assert_eq!(detect(&env), CIType::Github);
}

#[test]
fn default_platform_is_none() {
    assert_eq!(CIType::default(), CIType::NoCi);
}
