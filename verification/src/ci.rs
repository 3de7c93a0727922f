//! The continuous-integration task lists.
//!
//! Each command of the task runner expands to a list of command lines to
//! execute, in order. Building those lists is specified and proved here;
//! running them is outside work.

use vstd::prelude::*;

use crate::error::Error;
use crate::error::ErrorData;

verus! {

/// One command line: the program and its arguments.
pub type CommandLine = Vec<&'static str>;

/// The command lines of one task, in execution order.
pub type TaskList = Vec<CommandLine>;

/// Whether to build in development or release mode.
#[derive(Clone, Copy, PartialEq, Eq, Debug)]
pub enum Profile {
    Dev,
    Release,
}

/// The Rust toolchain version to check against; `None` means the default
/// toolchain with the full feature matrix.
#[derive(Clone, Copy, PartialEq, Eq, Debug)]
pub enum RustVersion {
    V1_81,
    V1_77,
    V1_69,
    V1_66,
    V1_64,
    V1_61,
}

/// The task-runner commands.
pub enum Ci {
    /// The entire quality gate.
    All(AllArgs),
    /// A small but powerful subset of the quality gate, with inverted
    /// defaults for the skip flags.
    Quick(QuickArgs),
    /// The formatting check alone.
    Rustfmt,
    /// The lint step alone.
    Clippy(CheckArgs),
    /// The test step alone.
    Test(TestArgs),
    /// The documentation step alone.
    Docs(DocsArgs),
    /// The build step alone.
    Build(BuildArgs),
    /// The coverage step alone.
    Tarpaulin(CoverageArgs),
    /// The interpreter-based test step alone, fenced by clean runs.
    Miri(MiriArgs),
    /// The dependency checks alone.
    Deps,
}

/// Arguments of the full quality gate.
#[derive(Clone, Copy, PartialEq, Eq, Debug)]
pub struct AllArgs {
    /// Run the profile-dependent steps in this profile only; `None` runs
    /// them in development mode first and then again in release mode.
    pub profile: Option<Profile>,
    pub include_ignored_tests: bool,
    pub include_ignored_tests_in_coverage: bool,
    pub skip_rustfmt: bool,
    pub skip_build: bool,
    pub skip_tarpaulin: bool,
    pub skip_miri: bool,
    pub skip_dependency_checks: bool,
    /// Skip the checks that rely on moving targets — tools or inputs
    /// that may change even when the codebase has not.
    pub skip_moving_targets: bool,
}

/// Arguments of the quick subset; the flags mean the same as on [`AllArgs`].
#[derive(Clone, Copy, PartialEq, Eq, Debug)]
pub struct QuickArgs {
    pub profile: Profile,
    pub include_ignored_tests: bool,
    pub include_ignored_tests_in_coverage: bool,
    pub skip_rustfmt: bool,
    pub skip_build: bool,
    pub skip_tarpaulin: bool,
    pub skip_miri: bool,
    pub skip_dependency_checks: bool,
    pub skip_moving_targets: bool,
}

#[derive(Clone, Copy, PartialEq, Eq, Debug)]
pub struct CheckArgs {
    pub rust_version: Option<RustVersion>,
    pub exclude_xtask: bool,
    pub profile: Profile,
}

#[derive(Clone, Copy, PartialEq, Eq, Debug)]
pub struct TestArgs {
    pub rust_version: Option<RustVersion>,
    pub exclude_xtask: bool,
    pub profile: Profile,
    pub include_ignored_tests: bool,
}

#[derive(Clone, Copy, PartialEq, Eq, Debug)]
pub struct DocsArgs {
    pub rust_version: Option<RustVersion>,
    pub profile: Profile,
}

#[derive(Clone, Copy, PartialEq, Eq, Debug)]
pub struct BuildArgs {
    pub rust_version: Option<RustVersion>,
    pub exclude_xtask: bool,
    pub profile: Profile,
}

#[derive(Clone, Copy, PartialEq, Eq, Debug)]
pub struct CoverageArgs {
    pub profile: Profile,
    pub include_ignored_tests: bool,
}

#[derive(Clone, Copy, PartialEq, Eq, Debug)]
pub struct MiriArgs {
    pub rust_version: Option<RustVersion>,
    pub include_ignored_tests: bool,
}

impl CheckArgs {
    pub fn new(profile: Profile) -> (r: CheckArgs)
        ensures
            (r == CheckArgs { rust_version: None, exclude_xtask: false, profile }),
    {
        CheckArgs { rust_version: None, exclude_xtask: false, profile }
    }
}

impl TestArgs {
    pub fn new(args: &AllArgs, profile: Profile) -> (r: TestArgs)
        ensures
            (r == TestArgs {
                rust_version: None,
                exclude_xtask: false,
                profile,
                include_ignored_tests: args.include_ignored_tests,
            }),
    {
        TestArgs {
            rust_version: None,
            exclude_xtask: false,
            profile,
            include_ignored_tests: args.include_ignored_tests,
        }
    }
}

impl DocsArgs {
    pub fn new(profile: Profile) -> (r: DocsArgs)
        ensures
            (r == DocsArgs { rust_version: None, profile }),
    {
        DocsArgs { rust_version: None, profile }
    }
}

impl BuildArgs {
    pub fn new(profile: Profile) -> (r: BuildArgs)
        ensures
            (r == BuildArgs { rust_version: None, exclude_xtask: false, profile }),
    {
        BuildArgs { rust_version: None, exclude_xtask: false, profile }
    }
}

impl CoverageArgs {
    pub fn new(args: &AllArgs, profile: Profile) -> (r: CoverageArgs)
        ensures
            (r == CoverageArgs {
                profile,
                include_ignored_tests: args.include_ignored_tests_in_coverage,
            }),
    {
        CoverageArgs { profile, include_ignored_tests: args.include_ignored_tests_in_coverage }
    }
}

impl MiriArgs {
    pub fn new(args: &AllArgs) -> (r: MiriArgs)
        ensures
            (r == MiriArgs {
                rust_version: None,
                include_ignored_tests: args.include_ignored_tests,
            }),
    {
        MiriArgs { rust_version: None, include_ignored_tests: args.include_ignored_tests }
    }
}

/// The quick subset runs the full gate with its own defaults.
pub open spec fn spec_all_args_of_quick(value: QuickArgs) -> AllArgs {
    AllArgs {
        profile: Some(value.profile),
        include_ignored_tests: value.include_ignored_tests,
        include_ignored_tests_in_coverage: value.include_ignored_tests_in_coverage,
        skip_rustfmt: value.skip_rustfmt,
        skip_build: value.skip_build,
        skip_tarpaulin: value.skip_tarpaulin,
        skip_miri: value.skip_miri,
        skip_dependency_checks: value.skip_dependency_checks,
        skip_moving_targets: value.skip_moving_targets,
    }
}

impl From<&QuickArgs> for AllArgs {
    fn from(value: &QuickArgs) -> (r: AllArgs) {
        AllArgs {
            profile: Some(value.profile),
            include_ignored_tests: value.include_ignored_tests,
            include_ignored_tests_in_coverage: value.include_ignored_tests_in_coverage,
            skip_rustfmt: value.skip_rustfmt,
            skip_build: value.skip_build,
            skip_tarpaulin: value.skip_tarpaulin,
            skip_miri: value.skip_miri,
            skip_dependency_checks: value.skip_dependency_checks,
            skip_moving_targets: value.skip_moving_targets,
        }
    }
}

impl vstd::std_specs::convert::FromSpecImpl<&QuickArgs> for AllArgs {
    open spec fn obeys_from_spec() -> bool {
        true
    }

    open spec fn from_spec(v: &QuickArgs) -> AllArgs {
        spec_all_args_of_quick(*v)
    }
}

impl Profile {
    /// The profile's name, as it appears in command lines and output.
    pub fn to_string(&self) -> (r: String)
        ensures
            *self is Dev ==> r@ == "dev"@,
            *self is Release ==> r@ == "release"@,
    {
        match self {
            Profile::Dev => "dev".to_owned(),
            Profile::Release => "release".to_owned(),
        }
    }
}

/// Appends every element of `items`.
fn push_all(task: &mut Vec<&'static str>, items: &[&'static str])
    ensures
        final(task)@ == old(task)@ + items@,
{
    let mut k: usize = 0;
    while k < items.len()
        invariant
            0 <= k <= items@.len(),
            task@ == old(task)@ + items@.take(k as int),
        decreases items@.len() - k,
    {
        task.push(items[k]);
        proof {
            assert(task@ =~= old(task)@ + items@.take(k + 1));
        }
        k += 1;
    }
    proof {
        assert(task@ =~= old(task)@ + items@);
    }
}

// ===========================================================================
// The individual command lines
// ===========================================================================
/// The feature flags for a toolchain choice: the full matrix for the default
/// toolchain, a pinned version range and a feature subset otherwise.
pub open spec fn spec_feature_flags(rust_version: Option<RustVersion>) -> Seq<Seq<char>> {
    match rust_version {
        None => seq![
            "--group-features=rust-v1.81,rust-v1.77,rust-v1.69,rust-v1.66,rust-v1.64"@,
            "--ignore-unknown-features"@,
            "--feature-powerset"@,
            "--optional-deps"@,
        ],
        Some(RustVersion::V1_81) => seq![
            "--version-range=1.81..=1.81"@,
            "--exclude-features=default"@,
            "--features=rust-v1.81,rust-v1.77,rust-v1.69,rust-v1.66,rust-v1.64"@,
            "--ignore-unknown-features"@,
            "--feature-powerset"@,
            "--optional-deps"@,
        ],
        Some(RustVersion::V1_77) => seq![
            "--version-range=1.77..=1.77"@,
            "--exclude-features=default"@,
            "--features=rust-v1.77,rust-v1.69,rust-v1.66,rust-v1.64"@,
            "--ignore-unknown-features"@,
            "--exclude-features=rust-v1.81"@,
            "--feature-powerset"@,
            "--optional-deps"@,
        ],
        Some(RustVersion::V1_69) => seq![
            "--version-range=1.69..=1.69"@,
            "--exclude-features=default"@,
            "--features=rust-v1.69,rust-v1.66,rust-v1.64"@,
            "--ignore-unknown-features"@,
            "--exclude-features=rust-v1.81,rust-v1.77"@,
            "--feature-powerset"@,
            "--optional-deps"@,
        ],
        Some(RustVersion::V1_66) => seq![
            "--version-range=1.66..=1.66"@,
            "--exclude-features=default"@,
            "--features=rust-v1.66,rust-v1.64"@,
            "--ignore-unknown-features"@,
            "--exclude-features=rust-v1.81,rust-v1.77,rust-v1.69"@,
            "--feature-powerset"@,
            "--optional-deps"@,
        ],
        Some(RustVersion::V1_64) => seq![
            "--version-range=1.64..=1.64"@,
            "--exclude-features=default,eyre"@,
            "--features=rust-v1.64"@,
            "--ignore-unknown-features"@,
            "--exclude-features=rust-v1.81,rust-v1.77,rust-v1.69,rust-v1.66"@,
            "--feature-powerset"@,
            "--optional-deps"@,
        ],
        Some(RustVersion::V1_61) => seq![
            "--version-range=1.61..=1.61"@,
            "--exclude-features=default,eyre"@,
            "--exclude-features=rust-v1.81,rust-v1.77,rust-v1.69,rust-v1.66,rust-v1.64"@,
            "--feature-powerset"@,
            "--optional-deps"@,
        ],
    }
}

/// The feature flags as a slice of arguments.
pub fn as_feature_flags(rust_version: &Option<RustVersion>) -> (r: Vec<&'static str>)
    ensures
        r.deep_view() == spec_feature_flags(*rust_version),
{
    let r: Vec<&'static str> = match rust_version {
        None => vec![
            "--group-features=rust-v1.81,rust-v1.77,rust-v1.69,rust-v1.66,rust-v1.64",
            "--ignore-unknown-features",
            "--feature-powerset",
            "--optional-deps",
        ],
        Some(RustVersion::V1_81) => vec![
            "--version-range=1.81..=1.81",
            "--exclude-features=default",
            "--features=rust-v1.81,rust-v1.77,rust-v1.69,rust-v1.66,rust-v1.64",
            "--ignore-unknown-features",
            "--feature-powerset",
            "--optional-deps",
        ],
        Some(RustVersion::V1_77) => vec![
            "--version-range=1.77..=1.77",
            "--exclude-features=default",
            "--features=rust-v1.77,rust-v1.69,rust-v1.66,rust-v1.64",
            "--ignore-unknown-features",
            "--exclude-features=rust-v1.81",
            "--feature-powerset",
            "--optional-deps",
        ],
        Some(RustVersion::V1_69) => vec![
            "--version-range=1.69..=1.69",
            "--exclude-features=default",
            "--features=rust-v1.69,rust-v1.66,rust-v1.64",
            "--ignore-unknown-features",
            "--exclude-features=rust-v1.81,rust-v1.77",
            "--feature-powerset",
            "--optional-deps",
        ],
        Some(RustVersion::V1_66) => vec![
            "--version-range=1.66..=1.66",
            "--exclude-features=default",
            "--features=rust-v1.66,rust-v1.64",
            "--ignore-unknown-features",
            "--exclude-features=rust-v1.81,rust-v1.77,rust-v1.69",
            "--feature-powerset",
            "--optional-deps",
        ],
        Some(RustVersion::V1_64) => vec![
            "--version-range=1.64..=1.64",
            "--exclude-features=default,eyre",
            "--features=rust-v1.64",
            "--ignore-unknown-features",
            "--exclude-features=rust-v1.81,rust-v1.77,rust-v1.69,rust-v1.66",
            "--feature-powerset",
            "--optional-deps",
        ],
        Some(RustVersion::V1_61) => vec![
            "--version-range=1.61..=1.61",
            "--exclude-features=default,eyre",
            "--exclude-features=rust-v1.81,rust-v1.77,rust-v1.69,rust-v1.66,rust-v1.64",
            "--feature-powerset",
            "--optional-deps",
        ],
    };
    proof {
        assert(r.deep_view() =~~= spec_feature_flags(*rust_version));
    }
    r
}

pub open spec fn spec_exclude_flag(shall_exclude: bool) -> Seq<Seq<char>> {
    if shall_exclude {
        seq!["--exclude=xtask"@]
    } else {
        Seq::empty()
    }
}

/// Adds `--exclude=xtask` when the runner package itself is excluded.
pub fn add_exclude_xtask_flag_maybe(shall_exclude: bool, task: &mut CommandLine)
    ensures
        final(task).deep_view() == old(task).deep_view() + spec_exclude_flag(shall_exclude),
{
    if shall_exclude {
        task.push("--exclude=xtask");
    }
    proof {
        assert(task.deep_view() =~~= old(task).deep_view() + spec_exclude_flag(shall_exclude));
    }
}

/// Adds the feature flags for the toolchain choice.
pub fn add_feature_flags(rust_version: &Option<RustVersion>, task: &mut CommandLine)
    ensures
        final(task).deep_view() == old(task).deep_view() + spec_feature_flags(*rust_version),
{
    let flags = as_feature_flags(rust_version);
    push_all(task, flags.as_slice());
    proof {
        assert(task.deep_view() =~~= old(task).deep_view() + spec_feature_flags(*rust_version));
    }
}

pub open spec fn spec_profile_flag(profile: Profile) -> Seq<Seq<char>> {
    match profile {
        Profile::Release => seq!["--release"@],
        Profile::Dev => Seq::empty(),
    }
}

/// Adds `--release` in release mode; development mode is cargo's default.
pub fn add_profile_flag_maybe(profile: Profile, task: &mut CommandLine)
    ensures
        final(task).deep_view() == old(task).deep_view() + spec_profile_flag(profile),
{
    match profile {
        Profile::Release => task.push("--release"),
        Profile::Dev => (),
    }
    proof {
        assert(task.deep_view() =~~= old(task).deep_view() + spec_profile_flag(profile));
    }
}

pub open spec fn spec_ignored_flags(include_ignored: bool) -> Seq<Seq<char>> {
    if include_ignored {
        seq!["--"@, "--include-ignored"@]
    } else {
        Seq::empty()
    }
}

pub open spec fn spec_check(args: CheckArgs) -> Seq<Seq<char>> {
    seq!["cargo"@, "hack"@, "check"@, "--locked"@, "--workspace"@, "--all-targets"@]
        + spec_exclude_flag(args.exclude_xtask) + spec_feature_flags(args.rust_version)
        + spec_profile_flag(args.profile)
}

/// The `cargo check` step.
pub fn check(args: &CheckArgs) -> (r: CommandLine)
    ensures
        r.deep_view() == spec_check(*args),
{
    let mut task: CommandLine = vec![
        "cargo",
        "hack",
        "check",
        "--locked",
        "--workspace",
        "--all-targets",
    ];
    add_exclude_xtask_flag_maybe(args.exclude_xtask, &mut task);
    add_feature_flags(&args.rust_version, &mut task);
    add_profile_flag_maybe(args.profile, &mut task);
    proof {
        assert(task.deep_view() =~~= spec_check(*args));
    }
    task
}

pub open spec fn spec_clippy(args: CheckArgs) -> Seq<Seq<char>> {
    seq!["cargo"@, "hack"@, "clippy"@, "--locked"@, "--workspace"@, "--all-targets"@]
        + spec_exclude_flag(args.exclude_xtask) + spec_feature_flags(args.rust_version)
        + spec_profile_flag(args.profile) + seq!["--"@, "-Dwarnings"@]
}

/// The `cargo clippy` step; warnings are denied.
pub fn clippy(args: &CheckArgs) -> (r: CommandLine)
    ensures
        r.deep_view() == spec_clippy(*args),
{
    let mut task: CommandLine = vec![
        "cargo",
        "hack",
        "clippy",
        "--locked",
        "--workspace",
        "--all-targets",
    ];
    add_exclude_xtask_flag_maybe(args.exclude_xtask, &mut task);
    add_feature_flags(&args.rust_version, &mut task);
    add_profile_flag_maybe(args.profile, &mut task);
    let ghost mid = task.deep_view();
    task.push("--");
    task.push("-Dwarnings");
    proof {
        assert(task.deep_view() =~~= mid + seq!["--"@, "-Dwarnings"@]);
        assert(task.deep_view() =~~= spec_clippy(*args));
    }
    task
}

pub open spec fn spec_test(args: TestArgs) -> Seq<Seq<char>> {
    seq!["cargo"@, "hack"@, "test"@, "--locked"@, "--workspace"@] + spec_exclude_flag(
        args.exclude_xtask,
    ) + spec_feature_flags(args.rust_version) + spec_profile_flag(args.profile)
        + spec_ignored_flags(args.include_ignored_tests)
}

/// The `cargo test` step.
pub fn test(args: &TestArgs) -> (r: CommandLine)
    ensures
        r.deep_view() == spec_test(*args),
{
    let mut task: CommandLine = vec!["cargo", "hack", "test", "--locked", "--workspace"];
    add_exclude_xtask_flag_maybe(args.exclude_xtask, &mut task);
    add_feature_flags(&args.rust_version, &mut task);
    add_profile_flag_maybe(args.profile, &mut task);
    let ghost mid = task.deep_view();
    if args.include_ignored_tests {
        task.push("--");
        task.push("--include-ignored");
        proof {
            assert(task.deep_view() =~~= mid + seq!["--"@, "--include-ignored"@]);
        }
    }
    proof {
        assert(task.deep_view() =~~= spec_test(*args));
    }
    task
}

pub open spec fn spec_docs(args: DocsArgs) -> Seq<Seq<char>> {
    seq!["cargo"@, "hack"@, "doc"@, "--locked"@, "--workspace"@, "--no-deps"@]
        + spec_feature_flags(args.rust_version) + spec_profile_flag(args.profile)
}

/// The `cargo doc` step. The runner also makes documentation warnings fatal
/// through the environment before executing this command line.
pub fn docs(args: &DocsArgs) -> (r: CommandLine)
    ensures
        r.deep_view() == spec_docs(*args),
{
    let mut task: CommandLine = vec!["cargo", "hack", "doc", "--locked", "--workspace", "--no-deps"];
    add_feature_flags(&args.rust_version, &mut task);
    add_profile_flag_maybe(args.profile, &mut task);
    proof {
        assert(task.deep_view() =~~= spec_docs(*args));
    }
    task
}

pub open spec fn spec_build(args: BuildArgs) -> Seq<Seq<char>> {
    seq!["cargo"@, "hack"@, "build"@, "--locked"@, "--workspace"@, "--all-targets"@]
        + spec_exclude_flag(args.exclude_xtask) + spec_feature_flags(args.rust_version)
        + spec_profile_flag(args.profile)
}

/// The `cargo build` step.
pub fn build(args: &BuildArgs) -> (r: CommandLine)
    ensures
        r.deep_view() == spec_build(*args),
{
    let mut task: CommandLine = vec![
        "cargo",
        "hack",
        "build",
        "--locked",
        "--workspace",
        "--all-targets",
    ];
    add_exclude_xtask_flag_maybe(args.exclude_xtask, &mut task);
    add_feature_flags(&args.rust_version, &mut task);
    add_profile_flag_maybe(args.profile, &mut task);
    proof {
        assert(task.deep_view() =~~= spec_build(*args));
    }
    task
}

pub open spec fn spec_tarpaulin(args: CoverageArgs) -> Seq<Seq<char>> {
    seq![
        "cargo"@,
        "tarpaulin"@,
        "--locked"@,
        "--workspace"@,
        "--all-features"@,
        "--all-targets"@,
        "--doc"@,
        "--no-fail-fast"@,
    ] + (match args.profile {
        Profile::Release => seq!["--output-dir"@, "tarpaulin-report-release"@, "--release"@],
        Profile::Dev => seq!["--output-dir"@, "tarpaulin-report-dev"@],
    }) + spec_ignored_flags(args.include_ignored_tests)
}

/// The `cargo tarpaulin` coverage step.
pub fn tarpaulin(args: &CoverageArgs) -> (r: CommandLine)
    ensures
        r.deep_view() == spec_tarpaulin(*args),
{
    let mut task: CommandLine = vec![
        "cargo",
        "tarpaulin",
        "--locked",
        "--workspace",
        "--all-features",
        "--all-targets",
        "--doc",
        "--no-fail-fast",
    ];
    match args.profile {
        Profile::Release => {
            task.push("--output-dir");
            task.push("tarpaulin-report-release");
            task.push("--release");
        },
        Profile::Dev => {
            task.push("--output-dir");
            task.push("tarpaulin-report-dev");
        },
    }
    if args.include_ignored_tests {
        task.push("--");
        task.push("--include-ignored");
    }
    proof {
        assert(task.deep_view() =~~= spec_tarpaulin(*args));
    }
    task
}

pub open spec fn spec_clean() -> Seq<Seq<char>> {
    seq!["cargo"@, "+nightly"@, "--locked"@, "clean"@]
}

pub open spec fn spec_miri_test(args: MiriArgs) -> Seq<Seq<char>> {
    seq!["cargo"@, "+nightly"@, "hack"@, "miri"@, "test"@, "--locked"@, "--workspace"@]
        + spec_feature_flags(args.rust_version) + spec_ignored_flags(args.include_ignored_tests)
}

pub open spec fn spec_miri(args: MiriArgs) -> Seq<Seq<Seq<char>>> {
    seq![spec_clean(), spec_miri_test(args), spec_clean()]
}

/// The interpreter-based test step, fenced by clean runs so that its build
/// outputs are neither reused nor left behind.
pub fn miri(args: &MiriArgs) -> (r: TaskList)
    ensures
        r.deep_view() == spec_miri(*args),
{
    let clean: CommandLine = vec!["cargo", "+nightly", "--locked", "clean"];
    let clean2: CommandLine = vec!["cargo", "+nightly", "--locked", "clean"];
    let mut test_task: CommandLine = vec![
        "cargo",
        "+nightly",
        "hack",
        "miri",
        "test",
        "--locked",
        "--workspace",
    ];
    add_feature_flags(&args.rust_version, &mut test_task);
    let ghost mid = test_task.deep_view();
    if args.include_ignored_tests {
        test_task.push("--");
        test_task.push("--include-ignored");
        proof {
            assert(test_task.deep_view() =~~= mid + seq!["--"@, "--include-ignored"@]);
        }
    }
    proof {
        assert(clean.deep_view() =~~= spec_clean());
        assert(clean2.deep_view() =~~= spec_clean());
        assert(test_task.deep_view() =~~= spec_miri_test(*args));
    }
    let r: TaskList = vec![clean, test_task, clean2];
    proof {
        assert(r.deep_view() =~~= spec_miri(*args));
    }
    r
}

pub open spec fn spec_deps() -> Seq<Seq<Seq<char>>> {
    seq![
        seq!["cargo"@, "--locked"@, "upgrades"@],
        seq!["cargo"@, "--locked"@, "update"@],
        seq!["cargo"@, "--locked"@, "audit"@, "--deny"@, "warnings"@],
    ]
}

/// The dependency checks: upgrades available, lockfile consistency, and
/// security advisories.
pub fn deps() -> (r: TaskList)
    ensures
        r.deep_view() == spec_deps(),
{
    let upgrades: CommandLine = vec!["cargo", "--locked", "upgrades"];
    let update: CommandLine = vec!["cargo", "--locked", "update"];
    let audit: CommandLine = vec!["cargo", "--locked", "audit", "--deny", "warnings"];
    let r: TaskList = vec![upgrades, update, audit];
    proof {
        assert(r.deep_view() =~~= spec_deps());
    }
    r
}

/// The `cargo fmt` check.
pub open spec fn spec_rustfmt() -> Seq<Seq<char>> {
    seq!["cargo"@, "+nightly"@, "--locked"@, "fmt"@, "--check"@, "--all"@]
}

pub fn rustfmt() -> (r: CommandLine)
    ensures
        r.deep_view() == spec_rustfmt(),
{
    let r: CommandLine = vec!["cargo", "+nightly", "--locked", "fmt", "--check", "--all"];
    proof {
        assert(r.deep_view() =~~= spec_rustfmt());
    }
    r
}

// ===========================================================================
// Composition
// ===========================================================================
/// Appends every command line of `items`.
fn push_all_tasks(list: &mut TaskList, items: TaskList)
    ensures
        final(list).deep_view() == old(list).deep_view() + items.deep_view(),
{
    let ghost pre = items.deep_view();
    let mut rest = items;
    let ghost mut j: int = 0;
    while rest.len() > 0
        invariant
            0 <= j <= pre.len(),
            j + rest@.len() == pre.len(),
            forall|i: int| 0 <= i < rest@.len() ==> rest@[i].deep_view() == #[trigger] pre[j + i],
            list.deep_view() == old(list).deep_view() + pre.take(j),
        decreases rest@.len(),
    {
        let ghost prev = rest@;
        let ghost dlist = list.deep_view();
        let ghost lv = list@;
        let head = rest.remove(0);
        list.push(head);
        proof {
            assert(rest@ == prev.remove(0));
            prev.remove_ensures(0);
            assert(prev[0].deep_view() == pre[j + 0]);
            assert(head.deep_view() == pre[j]);
            assert(pre.take(j + 1) =~= pre.take(j).push(pre[j]));
            assert(list@ == lv.push(head));
            assert forall|i: int| 0 <= i < lv.len() implies list.deep_view()[i] == dlist[i] by {
                assert(list@[i] == lv[i]);
            }
            assert(list.deep_view() =~= dlist.push(head.deep_view()));
            assert(list.deep_view() =~= old(list).deep_view() + pre.take(j + 1));
            j = j + 1;
            assert forall|i: int|
                0 <= i < rest@.len() implies rest@[i].deep_view() == #[trigger] pre[j + i] by {
                assert(rest@[i] == prev[i + 1]);
                assert(prev[i + 1].deep_view() == pre[(j - 1) + (i + 1)]);
            }
        }
    }
    proof {
        assert(pre.take(j) =~= pre);
    }
}

/// The profile-dependent steps: lint (or plain check when moving targets are
/// skipped), test, documentation, and, unless skipped, build and coverage.
pub open spec fn spec_compile_and_test(args: AllArgs, profile: Profile) -> Seq<Seq<Seq<char>>> {
    (if !args.skip_moving_targets {
        seq![spec_clippy(CheckArgs { rust_version: None, exclude_xtask: false, profile })]
    } else {
        seq![spec_check(CheckArgs { rust_version: None, exclude_xtask: false, profile })]
    }) + seq![
        spec_test(
            TestArgs {
                rust_version: None,
                exclude_xtask: false,
                profile,
                include_ignored_tests: args.include_ignored_tests,
            },
        ),
        spec_docs(DocsArgs { rust_version: None, profile }),
    ] + (if !args.skip_build {
        seq![spec_build(BuildArgs { rust_version: None, exclude_xtask: false, profile })]
    } else {
        Seq::empty()
    }) + (if !args.skip_moving_targets && !args.skip_tarpaulin {
        seq![
            spec_tarpaulin(
                CoverageArgs {
                    profile,
                    include_ignored_tests: args.include_ignored_tests_in_coverage,
                },
            ),
        ]
    } else {
        Seq::empty()
    })
}

pub fn compile_and_test(args: &AllArgs, profile: Profile) -> (r: TaskList)
    ensures
        r.deep_view() == spec_compile_and_test(*args, profile),
{
    let mut tasklist: TaskList = Vec::new();
    if !args.skip_moving_targets {
        tasklist.push(clippy(&CheckArgs::new(profile)));
    } else {
        tasklist.push(check(&CheckArgs::new(profile)));
    }
    tasklist.push(test(&TestArgs::new(args, profile)));
    tasklist.push(docs(&DocsArgs::new(profile)));
    if !args.skip_build {
        tasklist.push(build(&BuildArgs::new(profile)));
    }
    if !args.skip_moving_targets && !args.skip_tarpaulin {
        tasklist.push(tarpaulin(&CoverageArgs::new(args, profile)));
    }
    proof {
        assert(tasklist.deep_view() =~~= spec_compile_and_test(*args, profile));
    }
    tasklist
}

/// The entire quality gate: formatting first, then the profile-dependent
/// steps (twice when no profile was fixed), then the interpreter tests, then
/// the dependency checks.
pub open spec fn spec_all(args: AllArgs) -> Seq<Seq<Seq<char>>> {
    (if !args.skip_moving_targets && !args.skip_rustfmt {
        seq![spec_rustfmt()]
    } else {
        Seq::empty()
    }) + (match args.profile {
        Some(profile) => spec_compile_and_test(args, profile),
        None => spec_compile_and_test(args, Profile::Dev) + spec_compile_and_test(
            args,
            Profile::Release,
        ),
    }) + (if !args.skip_moving_targets && !args.skip_miri {
        spec_miri(MiriArgs { rust_version: None, include_ignored_tests: args.include_ignored_tests })
    } else {
        Seq::empty()
    }) + (if !args.skip_moving_targets && !args.skip_dependency_checks {
        spec_deps()
    } else {
        Seq::empty()
    })
}

pub fn all(args: &AllArgs) -> (r: TaskList)
    ensures
        r.deep_view() == spec_all(*args),
{
    let mut tasklist: TaskList = Vec::new();
    if !args.skip_moving_targets && !args.skip_rustfmt {
        tasklist.push(rustfmt());
    }
    match args.profile {
        Some(profile) => {
            push_all_tasks(&mut tasklist, compile_and_test(args, profile));
        },
        None => {
            push_all_tasks(&mut tasklist, compile_and_test(args, Profile::Dev));
            push_all_tasks(&mut tasklist, compile_and_test(args, Profile::Release));
        },
    }
    if !args.skip_moving_targets {
        if !args.skip_miri {
            push_all_tasks(&mut tasklist, miri(&MiriArgs::new(args)));
        }
        if !args.skip_dependency_checks {
            push_all_tasks(&mut tasklist, deps());
        }
    }
    proof {
        assert(tasklist.deep_view() =~~= spec_all(*args));
    }
    tasklist
}

/// The quick subset: the full gate with the quick defaults.
pub fn quick(args: &QuickArgs) -> (r: TaskList)
    ensures
        r.deep_view() == spec_all(spec_all_args_of_quick(*args)),
{
    all(&AllArgs::from(args))
}

/// Which command expands to which task list.
pub open spec fn spec_tasklist_from(args: Ci) -> Seq<Seq<Seq<char>>> {
    match args {
        Ci::All(a) => spec_all(a),
        Ci::Quick(a) => spec_all(spec_all_args_of_quick(a)),
        Ci::Rustfmt => seq![spec_rustfmt()],
        Ci::Clippy(a) => seq![spec_clippy(a)],
        Ci::Test(a) => seq![spec_test(a)],
        Ci::Build(a) => seq![spec_build(a)],
        Ci::Tarpaulin(a) => seq![spec_tarpaulin(a)],
        Ci::Miri(a) => spec_miri(a),
        Ci::Docs(a) => seq![spec_docs(a)],
        Ci::Deps => spec_deps(),
    }
}

/// Expands a command into the command lines to execute, in order.
pub fn tasklist_from(args: &Ci) -> (r: TaskList)
    ensures
        r.deep_view() == spec_tasklist_from(*args),
{
    let r: TaskList = match args {
        Ci::All(a) => all(a),
        Ci::Quick(a) => quick(a),
        Ci::Rustfmt => vec![rustfmt()],
        Ci::Clippy(a) => vec![clippy(a)],
        Ci::Test(a) => vec![test(a)],
        Ci::Build(a) => vec![build(a)],
        Ci::Tarpaulin(a) => vec![tarpaulin(a)],
        Ci::Miri(a) => miri(a),
        Ci::Docs(a) => vec![docs(a)],
        Ci::Deps => deps(),
    };
    proof {
        assert(r.deep_view() =~~= spec_tasklist_from(*args));
    }
    r
}


/// The guard before executing a command line: an empty one names no
/// program.
pub fn require_command(command_with_args: &[&str]) -> (r: Result<(), Error>)
    ensures
        r is Ok <==> command_with_args@.len() > 0,
        r matches Err(e) ==> *e.0 matches ErrorData::AdHoc(a) && a.message@
            == "No command passed."@,
{
    if command_with_args.len() == 0 {
        Err(Error::from_message("No command passed."))
    } else {
        Ok(())
    }
}

} // verus!
