//! The builder's two states, its debugging output, and the non-emptiness
//! coercion.

use lazy_errors::EnforceErrors;
use lazy_errors::Error;
use lazy_errors::ErrorStash;
use lazy_errors::StashWithErrors;

#[test]
fn stash_debug_fmt_when_empty() {
    let errs = ErrorStash::new(|| "Mock message");
    assert_eq!(errs.debug_string(), "ErrorStash(Empty)");
}

#[test]
fn stash_debug_fmt_with_errors() {
    let mut errs = ErrorStash::new(|| "Mock message");
    errs.push("First error");
    errs.push(Error::from_message("Second error"));

    let msg = errs.debug_string();

    assert!(msg.contains("ErrorStash"));
    assert!(msg.contains("StashWithErrors"));

    assert!(msg.contains("First error"));
    assert!(msg.contains("Second error"));

    assert!(msg.contains("lazy_errors"));
    assert!(msg.contains("stash.rs"));
}

#[test]
fn stash_debug_fmt_with_errors_eyre() {
    let mut errs = ErrorStash::new(|| "Mock message");

    errs.push(eyre::Report::msg("Eyre error"));

    let msg = errs.debug_string();

    assert!(msg.contains("Eyre error"));
    assert!(msg.contains("lazy_errors"));
    assert!(msg.contains("stash.rs"));
}

#[test]
fn error_stash_enforce_errors_modifies_original_stash() {
    let mut error_stash = ErrorStash::new(|| "Failure");
    assert_eq!(error_stash.errors().len(), 0);

    error_stash.enforce_errors();
    assert_eq!(error_stash.errors().len(), 1);

    let err = error_stash.into_result().unwrap_err();
    let msg = err.to_string();
    assert_eq!("Failure: INTERNAL ERROR", &msg);
}

#[test]
fn error_stash_enforce_errors_modifies_only_once() {
    let mut error_stash = ErrorStash::new(|| "Failure");
    assert_eq!(error_stash.errors().len(), 0);

    error_stash.enforce_errors();
    assert_eq!(error_stash.errors().len(), 1);

    error_stash.enforce_errors();
    assert_eq!(error_stash.errors().len(), 1);

    let err = error_stash.into_result().unwrap_err();
    let msg = err.to_string();
    assert_eq!("Failure: INTERNAL ERROR", &msg);
}

#[test]
fn error_stash_enforce_errors_does_not_modify_if_nonempty() {
    let mut error_stash = ErrorStash::new(|| "Failure");
    assert_eq!(error_stash.errors().len(), 0);

    error_stash.push("External error");
    assert_eq!(error_stash.errors().len(), 1);

    error_stash.enforce_errors();
    assert_eq!(error_stash.errors().len(), 1);

    error_stash.enforce_errors();
    assert_eq!(error_stash.errors().len(), 1);

    let err = error_stash.into_result().unwrap_err();
    let msg = err.to_string();
    assert_eq!("Failure: External error", &msg);
}

#[test]
fn stash_with_errors_enforce_errors_modifies_only_once() {
    let mut error_stash = ErrorStash::new(|| "Failure");
    assert_eq!(error_stash.errors().len(), 0);

    error_stash.enforce_errors();
    assert_eq!(error_stash.errors().len(), 1);

    error_stash.enforce_errors();
    assert_eq!(error_stash.errors().len(), 1);

    match error_stash.into_result() {
        Ok(()) => unreachable!(),
        Err(err) => {
            assert_eq!(err.children().len(), 1);
        }
    }
}

#[test]
fn stash_with_errors_enforce_errors_does_not_modify() {
    let mut swe = StashWithErrors::from("Failure", "External error");
    assert_eq!(swe.errors().len(), 1);

    swe.enforce_errors();
    assert_eq!(swe.errors().len(), 1);

    let err: Error = swe.into_error();
    let msg = err.to_string();
    assert_eq!("Failure: External error", &msg);
}

// The summary generator fires exactly once, on the first push, and not at
// all while no error is pushed.
#[test]
fn summary_generator_is_lazy_and_fires_once() {
    let calls = std::rc::Rc::new(std::cell::Cell::new(0u32));

    let c = calls.clone();
    let untouched = ErrorStash::new(move || {
        c.set(c.get() + 1);
        String::from("Summary")
    });
    assert!(untouched.is_empty());
    assert!(untouched.into_result().is_ok());
    assert_eq!(calls.get(), 0);

    let c = calls.clone();
    let mut errs = ErrorStash::new(move || {
        c.set(c.get() + 1);
        String::from("Summary")
    });
    errs.push("one");
    assert_eq!(calls.get(), 1);
    errs.push("two");
    errs.push("three");
    assert_eq!(calls.get(), 1);
    let err = errs.into_result().unwrap_err();
    assert_eq!(err.to_string(), "Summary (3 errors)");
    assert_eq!(calls.get(), 1);
}

// Errors come back from `errors` in push order.
#[test]
fn errors_are_returned_in_push_order() {
    let mut errs = ErrorStash::new(|| "Summary message");
    assert!(errs.errors().is_empty());

    errs.push("42");
    errs.push("-1");
    errs.push("1337");

    let texts: Vec<String> = errs.errors().iter().map(|e| e.to_string()).collect();
    assert_eq!(texts, vec!["42", "-1", "1337"]);
    assert!(!errs.is_empty());
}

#[test]
fn take_leaves_a_marked_placeholder() {
    let mut swe = StashWithErrors::from("Failure", "External error");
    let taken = swe.take();
    assert_eq!(taken.errors().len(), 1);
    assert_eq!(taken.into_error().to_string(), "Failure: External error");
    assert_eq!(swe.errors().len(), 0);
    assert_eq!(
        swe.to_string(),
        "Stash of 0 errors currently"
    );
    assert_eq!(
        swe.into_error().to_string(),
        "Internal error: Error info cleared by take(): 0 errors"
    );
}

#[test]
fn push_and_convert_seeds_and_converts() {
    let errs = ErrorStash::new(|| "Something went wrong");
    let swe = errs.push_and_convert("the reason");
    assert_eq!(swe.errors().len(), 1);
    let err = swe.into_error();
    assert_eq!(err.to_string(), "Something went wrong: the reason");
}

#[test]
fn ok_is_a_barrier_that_keeps_the_stash() {
    let mut errs: ErrorStash<_, &str> = ErrorStash::new(|| "Summary");
    assert!(matches!(
        errs.ok(),
        lazy_errors::StashedResult::Success(())
    ));
    errs.push("boom");
    assert!(matches!(errs.ok(), lazy_errors::StashedResult::Stashed));
    assert_eq!(errs.errors().len(), 1);
}
