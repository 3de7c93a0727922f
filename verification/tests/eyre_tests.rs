//! The lossy conversions into `eyre`'s report type.

use lazy_errors::Error;
use lazy_errors::ErrorStash;
use lazy_errors::IntoEyreReport;
use lazy_errors::IntoEyreResult;

#[test]
fn adhoc_error_into_eyre_report() {
    let err = Error::from_message("first() failed");
    let report = err.into_eyre_report();
    let printed = lazy_errors::doctest_line_num_helper(&format!("{report}"));
    assert_eq!(printed, "first() failed\nat src/stash.rs:1234:56");
}

#[test]
fn stash_into_eyre_result() {
    let empty: ErrorStash<_, &str> = ErrorStash::new(|| "One or more things failed");
    assert!(empty.into_eyre_result().is_ok());

    let mut errs = ErrorStash::new(|| "One or more things failed");
    errs.push("first() failed");
    errs.push("second() failed");

    let report = errs.into_eyre_result().unwrap_err();
    let msg = format!("{report}");
    assert!(msg.contains("One or more things failed"));
    assert!(msg.contains("first() failed"));
    assert!(msg.contains("second() failed"));
}

#[test]
fn stash_with_errors_into_eyre_report() {
    let mut stash = lazy_errors::StashWithErrors::from("Failed", "first() failed");
    stash.push("second() failed");
    let report = stash.into_eyre_report();
    let msg = format!("{report}");
    assert!(msg.starts_with("Failed"));
    assert!(msg.contains("- first() failed"));
    assert!(msg.contains("- second() failed"));
}

#[test]
fn pushed_eyre_report_is_erased_to_its_text() {
    let mut errs = ErrorStash::new(|| "Summary");
    errs.push(eyre::Report::msg("the eyre failure"));
    let err = errs.into_result().unwrap_err();
    assert_eq!(err.to_string(), "Summary: the eyre failure");
}
