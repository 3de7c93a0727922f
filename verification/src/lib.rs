//! Deferred, multi-error aggregation.
//!
//! Instead of stopping at the first failure, callers collect zero or more
//! errors while continuing execution, and later materialize them into one
//! reportable, hierarchical error value with a compact (single-line) and a
//! pretty (multi-line, with source locations) text rendering.

use vstd::prelude::*;

pub mod ci;
mod error;
mod into_eyre;
mod or_create_stash;
mod or_stash;
mod or_wrap;
mod or_wrap_with;
mod reportable;
mod stash;
mod stash_err;
mod stashable;
mod text;
mod try_collect_or_stash;
mod version;
mod try_map_or_stash;

pub use ci::all;
pub use ci::build;
pub use ci::check;
pub use ci::clippy;
pub use ci::compile_and_test;
pub use ci::deps;
pub use ci::docs;
pub use ci::miri;
pub use ci::quick;
pub use ci::require_command;
pub use ci::rustfmt;
pub use ci::tarpaulin;
pub use ci::tasklist_from;
pub use ci::AllArgs;
pub use ci::BuildArgs;
pub use ci::CheckArgs;
pub use ci::Ci;
pub use ci::CommandLine;
pub use ci::CoverageArgs;
pub use ci::DocsArgs;
pub use ci::MiriArgs;
pub use ci::Profile;
pub use ci::QuickArgs;
pub use ci::RustVersion;
pub use ci::TaskList;
pub use ci::TestArgs;
pub use error::AdHocError;
pub use error::Error;
pub use error::ErrorData;
pub use error::Location;
pub use error::Stashable;
pub use error::StashedErrors;
pub use error::WrappedError;
pub use into_eyre::IntoEyreReport;
pub use into_eyre::IntoEyreResult;
pub use or_create_stash::OrCreateStash;
pub use or_stash::OrStash;
pub use or_stash::StashedResult;
pub use or_wrap::Fallible;
pub use or_wrap::OrWrap;
pub use or_wrap_with::OrWrapWith;
pub use reportable::Reportable;
pub use stash::lemma_enforce_errors_idempotent;
pub use stash::location;
pub use stash::EnforceErrors;
pub use stash::ErrorSink;
pub use stash::ErrorSource;
pub use stash::ErrorStash;
pub use stash::str_or_stash;
pub use stash::StashWithErrors;
pub use stash_err::StashErr;
pub use stash_err::StashErrIter;
pub use stashable::IntoStashable;
pub use text::doctest_line_num_helper;
pub use text::usize_to_string;
pub use try_collect_or_stash::TryCollectOrStash;
pub use try_map_or_stash::TryMapOrStash;
pub use version::is_accepted;
pub use version::parse_and_filter;
pub use version::parse_custom_version;
pub use version::parse_git_describe_output;
pub use version::parse_major_minor_patch;
pub use version::parse_version_number;
pub use version::parse_version_part;
pub use version::CustomVersion;
pub use version::ImportArgs;
pub use version::MajorMinorPatch;
pub use version::Pattern;
pub use version::Source;
pub use version::Version;
pub use version::VersionNumber;

verus! {

/// Decimal digits of `n`, most significant first.
pub open spec fn spec_decimal(n: nat) -> Seq<char>
    decreases n,
{
    if n < 10 {
        seq![text::spec_digit_char(n)]
    } else {
        spec_decimal(n / 10).push(text::spec_digit_char(n % 10))
    }
}

} // verus!
