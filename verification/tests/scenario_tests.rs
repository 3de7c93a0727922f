//! End-to-end scenarios over the builder and the pretty renderer.

use lazy_errors::doctest_line_num_helper as replace_line_numbers;
use lazy_errors::Error;
use lazy_errors::ErrorStash;

// Build an empty stash, push three "not ASCII" failures and one cleanup
// failure: the pretty rendering is a bulleted list under the summary line,
// each item followed by its own location lines, in push order.
#[test]
fn pretty_rendering_lists_failures_in_push_order() {
    let mut stash = ErrorStash::new(|| "Failed to run application");

    stash.push(Error::from_message("Input is not ASCII: '❓'"));
    stash.push(Error::from_message("Input is not ASCII: '❗'"));
    stash.push(Error::from_message("Input is not ASCII: '🌍'"));
    stash.push(Error::from_message("Cleanup failed"));

    let err = stash.into_result().unwrap_err();
    let printed = replace_line_numbers(&err.to_pretty_string());
    assert_eq!(
        printed,
        "Failed to run application\n\
         - Input is not ASCII: '❓'\n\
         \x20 at src/stash.rs:1234:56\n\
         \x20 at src/stash.rs:1234:56\n\
         - Input is not ASCII: '❗'\n\
         \x20 at src/stash.rs:1234:56\n\
         \x20 at src/stash.rs:1234:56\n\
         - Input is not ASCII: '🌍'\n\
         \x20 at src/stash.rs:1234:56\n\
         \x20 at src/stash.rs:1234:56\n\
         - Cleanup failed\n\
         \x20 at src/stash.rs:1234:56\n\
         \x20 at src/stash.rs:1234:56"
    );
}

#[test]
fn compact_rendering_of_two_failures_counts_them() {
    let mut errs = ErrorStash::new(|| "Something went wrong");
    errs.push("This is an error message");
    assert_eq!(errs.to_string(), "Stash of 1 errors currently");

    errs.push("Yet another error message");
    assert_eq!(errs.to_string(), "Stash of 2 errors currently");

    let err = errs.into_result().unwrap_err();
    assert_eq!(err.to_string(), "Something went wrong (2 errors)");

    let printed = replace_line_numbers(&err.to_pretty_string());
    assert_eq!(
        printed,
        "Something went wrong\n\
         - This is an error message\n\
         \x20 at src/stash.rs:1234:56\n\
         - Yet another error message\n\
         \x20 at src/stash.rs:1234:56"
    );
}

#[test]
fn empty_stash_converts_to_success() {
    let errs = ErrorStash::new(|| "Something went wrong");
    assert_eq!(errs.to_string(), "Stash of 0 errors currently");
    assert!(errs.into_result().is_ok());
}

#[test]
fn pretty_rendering_recurses_into_nested_stashes() {
    let mut child = ErrorStash::new(|| "Child failed");
    child.push("Root cause");
    let child_err = child.into_result().unwrap_err();

    let mut parent = ErrorStash::new(|| "Parent failed");
    parent.push(child_err);
    let err = parent.into_result().unwrap_err();

    assert_eq!(err.to_string(), "Parent failed: Child failed: Root cause");
    let printed = replace_line_numbers(&err.to_pretty_string());
    assert_eq!(
        printed,
        "Parent failed\n\
         - Child failed\n\
         \x20 - Root cause\n\
         \x20   at src/stash.rs:1234:56\n\
         \x20 at src/stash.rs:1234:56"
    );
}
