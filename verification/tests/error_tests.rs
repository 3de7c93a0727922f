//! The error value stays as cheap to move as a pointer, and the renderings
//! follow the specified forms.

use lazy_errors::AdHocError;
use lazy_errors::Error;
use lazy_errors::Stashable;
use lazy_errors::StashedErrors;
use lazy_errors::WrappedError;

fn assert_small<T>() {
    assert_eq!(core::mem::size_of::<T>(), core::mem::size_of::<usize>());
}

#[test]
fn error_is_small_std() {
    assert_small::<Error>();
}

#[test]
fn error_is_small_surrogate() {
    assert_small::<Error>();
}

#[test]
fn from_message_renders_verbatim() {
    let err = AdHocError::from_message("Something went wrong");
    assert_eq!(err.to_string(), "Something went wrong");
    let pretty = err.to_pretty_string();
    let mut lines = pretty.lines();
    assert_eq!(lines.next(), Some("Something went wrong"));
    assert!(lines.next().unwrap().starts_with("at "));
    assert_eq!(lines.next(), None);
}

#[test]
fn wrap_without_context_renders_inner() {
    let err = Error::wrap("A thing went wrong");
    assert_eq!(err.to_string(), "A thing went wrong");
    let children = err.children();
    assert_eq!(children.len(), 1);
    assert_eq!(children[0].to_string(), "A thing went wrong");
}

#[test]
fn wrap_with_context_prefixes_inner() {
    let err = Error::wrap_with("root cause", "While doing things");
    assert_eq!(err.to_string(), "While doing things: root cause");
}

#[test]
fn children_of_adhoc_are_empty() {
    let err = Error::from_message("Something went wrong");
    assert!(err.children().is_empty());
}

// The compact rendering count rule: zero errors render as a count of zero,
// one error is shown inline, more errors render as a count.
#[test]
fn compact_rendering_count_rule() {
    let zero = StashedErrors::from("Summary", vec![], vec![]);
    assert_eq!(zero.to_string(), "Summary: 0 errors");

    let one = StashedErrors::from(
        "Summary",
        vec![Stashable::Message(String::from("only"))],
        vec![lazy_errors::location()],
    );
    assert_eq!(one.to_string(), "Summary: only");

    let two = StashedErrors::from(
        "Summary",
        vec![
            Stashable::Message(String::from("first")),
            Stashable::Message(String::from("second")),
        ],
        vec![lazy_errors::location(), lazy_errors::location()],
    );
    assert_eq!(two.to_string(), "Summary (2 errors)");

    let three = StashedErrors::from(
        "Summary",
        vec![
            Stashable::Message(String::from("first")),
            Stashable::Message(String::from("second")),
            Stashable::Message(String::from("third")),
        ],
        vec![
            lazy_errors::location(),
            lazy_errors::location(),
            lazy_errors::location(),
        ],
    );
    assert_eq!(three.to_string(), "Summary (3 errors)");
}

// Nested single-error stashes flatten into one compact line at every level.
#[test]
fn nested_single_error_stashes_flatten() {
    let inner = StashedErrors::from(
        "Child failed",
        vec![Stashable::Message(String::from("Root cause"))],
        vec![lazy_errors::location()],
    );
    let inner_err = Error::from_stash(
        "Child failed",
        vec![Stashable::Message(String::from("Root cause"))],
        vec![lazy_errors::location()],
    );
    assert_eq!(inner.to_string(), "Child failed: Root cause");

    let mut outer = lazy_errors::ErrorStash::new(|| "Parent failed");
    outer.push(inner_err);
    let err = outer.into_result().unwrap_err();
    assert_eq!(err.to_string(), "Parent failed: Child failed: Root cause");
}

#[test]
fn wrapped_error_inner_is_kept() {
    let w = WrappedError::wrap("kept");
    assert_eq!(w.inner().to_string(), "kept");
    assert_eq!(w.to_string(), "kept");
}
