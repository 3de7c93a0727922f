//! The continuous-integration task lists.

use lazy_errors::ci;
use lazy_errors::AllArgs;
use lazy_errors::CheckArgs;
use lazy_errors::Ci;
use lazy_errors::Profile;
use lazy_errors::QuickArgs;
use lazy_errors::TestArgs;

fn feature_flags() -> Vec<&'static str> {
    vec![
        "--group-features=rust-v1.81,rust-v1.77,rust-v1.69,rust-v1.66,rust-v1.64",
        "--ignore-unknown-features",
        "--feature-powerset",
        "--optional-deps",
    ]
}

fn with_features(mut head: Vec<&'static str>, tail: &[&'static str]) -> Vec<&'static str> {
    head.extend_from_slice(&feature_flags());
    head.extend_from_slice(tail);
    head
}

#[test]
fn rustfmt_task() {
    assert_eq!(
        ci::tasklist_from(&Ci::Rustfmt),
        vec![vec!["cargo", "+nightly", "--locked", "fmt", "--check", "--all"]]
    );
}

#[test]
fn clippy_task() {
    let args = CheckArgs {
        rust_version: None,
        exclude_xtask: false,
        profile: Profile::Dev,
    };
    assert_eq!(
        ci::tasklist_from(&Ci::Clippy(args)),
        vec![with_features(
            vec!["cargo", "hack", "clippy", "--locked", "--workspace", "--all-targets"],
            &["--", "-Dwarnings"],
        )]
    );
}

#[test]
fn test_task() {
    let args = TestArgs {
        rust_version: None,
        exclude_xtask: false,
        profile: Profile::Dev,
        include_ignored_tests: false,
    };
    assert_eq!(
        ci::tasklist_from(&Ci::Test(args)),
        vec![with_features(
            vec!["cargo", "hack", "test", "--locked", "--workspace"],
            &[],
        )]
    );
}

#[test]
fn build_task_release_without_xtask() {
    let args = lazy_errors::BuildArgs {
        rust_version: None,
        exclude_xtask: true,
        profile: Profile::Release,
    };
    let mut expected = vec![
        "cargo",
        "hack",
        "build",
        "--locked",
        "--workspace",
        "--all-targets",
        "--exclude=xtask",
    ];
    expected.extend_from_slice(&feature_flags());
    expected.push("--release");
    assert_eq!(ci::tasklist_from(&Ci::Build(args)), vec![expected]);
}

#[test]
fn tarpaulin_task() {
    let args = lazy_errors::CoverageArgs {
        profile: Profile::Dev,
        include_ignored_tests: false,
    };
    assert_eq!(
        ci::tasklist_from(&Ci::Tarpaulin(args)),
        vec![vec![
            "cargo",
            "tarpaulin",
            "--locked",
            "--workspace",
            "--all-features",
            "--all-targets",
            "--doc",
            "--no-fail-fast",
            "--output-dir",
            "tarpaulin-report-dev",
        ]]
    );
}

#[test]
fn miri_task() {
    let args = lazy_errors::MiriArgs {
        rust_version: None,
        include_ignored_tests: false,
    };
    let clean = vec!["cargo", "+nightly", "--locked", "clean"];
    assert_eq!(
        ci::tasklist_from(&Ci::Miri(args)),
        vec![
            clean.clone(),
            with_features(
                vec!["cargo", "+nightly", "hack", "miri", "test", "--locked", "--workspace"],
                &[],
            ),
            clean,
        ]
    );
}

#[test]
fn deps_task() {
    assert_eq!(
        ci::tasklist_from(&Ci::Deps),
        vec![
            vec!["cargo", "--locked", "upgrades"],
            vec!["cargo", "--locked", "update"],
            vec!["cargo", "--locked", "audit", "--deny", "warnings"],
        ]
    );
}

#[test]
fn default_quick_tasklist() {
    let args = QuickArgs {
        profile: Profile::Dev,
        include_ignored_tests: false,
        include_ignored_tests_in_coverage: false,
        skip_rustfmt: false,
        skip_build: true,
        skip_tarpaulin: true,
        skip_miri: true,
        skip_dependency_checks: true,
        skip_moving_targets: false,
    };
    let tasks = ci::tasklist_from(&Ci::Quick(args));
    assert_eq!(
        tasks,
        vec![
            vec!["cargo", "+nightly", "--locked", "fmt", "--check", "--all"],
            with_features(
                vec!["cargo", "hack", "clippy", "--locked", "--workspace", "--all-targets"],
                &["--", "-Dwarnings"],
            ),
            with_features(vec!["cargo", "hack", "test", "--locked", "--workspace"], &[]),
            with_features(
                vec!["cargo", "hack", "doc", "--locked", "--workspace", "--no-deps"],
                &[],
            ),
        ]
    );
}

#[test]
fn minimal_all_tasklist() {
    let args = AllArgs {
        profile: Some(Profile::Dev),
        include_ignored_tests: false,
        include_ignored_tests_in_coverage: false,
        skip_rustfmt: true,
        skip_build: true,
        skip_tarpaulin: true,
        skip_miri: true,
        skip_dependency_checks: true,
        skip_moving_targets: true,
    };
    let tasks = ci::tasklist_from(&Ci::All(args));
    assert_eq!(
        tasks,
        vec![
            with_features(
                vec!["cargo", "hack", "check", "--locked", "--workspace", "--all-targets"],
                &[],
            ),
            with_features(vec!["cargo", "hack", "test", "--locked", "--workspace"], &[]),
            with_features(
                vec!["cargo", "hack", "doc", "--locked", "--workspace", "--no-deps"],
                &[],
            ),
        ]
    );
}

#[test]
fn all_without_profile_runs_both_profiles() {
    let args = AllArgs {
        profile: None,
        include_ignored_tests: false,
        include_ignored_tests_in_coverage: false,
        skip_rustfmt: true,
        skip_build: true,
        skip_tarpaulin: true,
        skip_miri: true,
        skip_dependency_checks: true,
        skip_moving_targets: false,
    };
    let tasks = ci::tasklist_from(&Ci::All(args));
    assert_eq!(tasks.len(), 6);
    assert!(tasks[3].contains(&"--release"));
    assert!(tasks[4].contains(&"--release"));
    assert!(tasks[5].contains(&"--release"));
}
