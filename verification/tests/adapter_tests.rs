//! The single-result and collection adapters.

use lazy_errors::doctest_line_num_helper as replace_line_numbers;
use lazy_errors::Error;
use lazy_errors::ErrorStash;
use lazy_errors::OrCreateStash;
use lazy_errors::OrStash;
use lazy_errors::OrWrap;
use lazy_errors::OrWrapWith;
use lazy_errors::StashErr;
use lazy_errors::StashWithErrors;
use lazy_errors::StashedResult;
use lazy_errors::TryCollectOrStash;
use lazy_errors::TryMapOrStash;

fn parse_u8(s: &str) -> Result<u8, String> {
    s.parse::<u8>().map_err(|e| e.to_string())
}

#[test]
fn or_wrap_passes_success_through() {
    let r: Result<u32, String> = Ok(42);
    assert_eq!(r.or_wrap().unwrap(), 42);
}

#[test]
fn or_wrap_wraps_failures() {
    let r: Result<u32, &str> = Err("boom");
    let err = r.or_wrap().unwrap_err();
    assert_eq!(err.to_string(), "boom");
}

// Wrapping a parse failure with context: the compact rendering chains the
// context and the cause; the pretty rendering adds one location line.
#[test]
fn wrap_with_context_scenario() {
    let err: Error = "X"
        .parse::<u32>()
        .map_err(|e| e.to_string())
        .or_wrap_with(|| "Not an u32: 'X'")
        .unwrap_err();

    assert_eq!(
        err.to_string(),
        "Not an u32: 'X': invalid digit found in string"
    );

    let printed = replace_line_numbers(&err.to_pretty_string());
    assert_eq!(
        printed,
        "Not an u32: 'X': invalid digit found in string\nat src/stash.rs:1234:56"
    );
}

#[test]
fn or_stash_collects_and_defers() {
    let mut stash = ErrorStash::new(|| "Failed to run application");

    let bad: Result<(), Error> = Err(Error::from_message("Input is not ASCII: '❓'"));
    bad.or_stash(&mut stash);
    let good: Result<u32, Error> = Ok(42);
    assert_eq!(good.or_stash(&mut stash).ok(), Some(42));

    let err = stash.into_result().unwrap_err();
    assert_eq!(err.children().len(), 1);
}

#[test]
fn or_create_stash_seeds_a_nonempty_stash() {
    let ok: Result<u32, &str> = Ok(7);
    assert_eq!(ok.or_create_stash(|| "Failed to write").unwrap(), 7);

    let bad: Result<u32, &str> = Err("Input is not ASCII");
    let mut stash: StashWithErrors = bad.or_create_stash(|| "Failed to write").unwrap_err();
    assert_eq!(stash.errors().len(), 1);

    let cleanup: Result<(), &str> = Err("Cleanup failed");
    cleanup.or_stash(&mut stash);
    assert_eq!(stash.errors().len(), 2);

    let err = stash.into_error();
    assert_eq!(err.to_string(), "Failed to write (2 errors)");
}

#[test]
fn stash_err_yields_successes_and_stashes_failures() {
    let items: Vec<Result<u8, String>> =
        vec!["1", "XX", "3", "Y"].into_iter().map(parse_u8).collect();
    let errs = ErrorStash::new(|| "There were one or more errors");

    let mut iter = items.stash_err(errs);
    let mut numbers: Vec<u8> = Vec::new();
    while let Some(n) = iter.next() {
        numbers.push(n);
    }
    let errs = iter.finish();

    assert_eq!(numbers, vec![1, 3]);
    assert_eq!(errs.errors().len(), 2);
}

#[test]
fn stash_err_has_correct_backtrace() {
    let items: Vec<Result<u8, String>> = vec!["not a number"].into_iter().map(parse_u8).collect();
    let errs = ErrorStash::new(|| "There were one or more errors");

    let mut iter = items.stash_err(errs);
    assert!(iter.next().is_none());
    let errs = iter.finish();

    let err: Error = errs.into_result().unwrap_err();
    let msg = replace_line_numbers(&err.to_pretty_string());
    assert_eq!(
        &msg,
        "There were one or more errors\n- invalid digit found in string\n  at src/stash.rs:1234:56"
    );
}

// The round trip of the collection adapters: all-good input collects the
// parsed values with no new errors; one bad element stashes exactly one new
// error and drops the parsed values.
#[test]
fn try_collect_or_stash_round_trip() {
    let mut errs = ErrorStash::new(|| "There were one or more errors");

    let good: Vec<Result<u8, String>> = vec!["1", "42", "3"].into_iter().map(parse_u8).collect();
    let collected = good.try_collect_or_stash(&mut errs);
    match collected {
        StashedResult::Success(v) => assert_eq!(v, vec![1, 42, 3]),
        StashedResult::Stashed => unreachable!(),
    }
    assert_eq!(errs.errors().len(), 0);

    let bad: Vec<Result<u8, String>> = vec!["1", "X", "3"].into_iter().map(parse_u8).collect();
    let collected = bad.try_collect_or_stash(&mut errs);
    assert!(matches!(collected, StashedResult::Stashed));
    assert_eq!(errs.errors().len(), 1);
}

#[test]
fn try_collect_or_stash_into_stash_with_errors() {
    let mut errs: StashWithErrors =
        StashWithErrors::from("There were one or more errors", "Earlier error");

    let empty: Vec<Result<u8, Error>> = vec![];
    let empty = empty.try_collect_or_stash(&mut errs).ok().unwrap();
    assert_eq!(empty, Vec::<u8>::new());

    let ok: Vec<Result<u8, Error>> = vec![Ok(42)];
    let ok = ok.try_collect_or_stash(&mut errs).ok().unwrap();
    assert_eq!(ok, vec![42]);

    let err: Vec<Result<u8, Error>> = vec![Err(Error::from_message("not a number"))];
    let err = err.try_collect_or_stash(&mut errs);
    assert!(matches!(err, StashedResult::Stashed));
}

#[test]
fn try_collect_or_stash_has_correct_backtrace() {
    let mut errs = ErrorStash::new(|| "There were one or more errors");

    let items: Vec<Result<u8, String>> = vec!["not a number"].into_iter().map(parse_u8).collect();
    let _numbers = items.try_collect_or_stash(&mut errs);

    let err: Error = errs.into_result().unwrap_err();
    let msg = replace_line_numbers(&err.to_pretty_string());
    assert_eq!(
        &msg,
        "There were one or more errors\n- invalid digit found in string\n  at src/stash.rs:1234:56\n  at src/stash.rs:1234:56"
    );
}

fn parse_u8_err(s: &str) -> Result<u8, Error> {
    s.parse::<u8>()
        .map_err(|_| Error::from_message(format!("Invalid number: '{s}'")))
}

#[test]
fn try_map_or_stash_maps_all_elements() {
    let mut errs = ErrorStash::new(|| "Invalid input");
    let numbers = ["42", "0"].try_map_or_stash(parse_u8_err, &mut errs);
    match numbers {
        StashedResult::Success(v) => assert_eq!(v, vec![42, 0]),
        StashedResult::Stashed => unreachable!(),
    }
    assert!(errs.is_empty());

    let one_bad = ["X", "0"].try_map_or_stash(parse_u8_err, &mut errs);
    assert!(matches!(one_bad, StashedResult::Stashed));
    assert_eq!(errs.errors().len(), 1);
}

// A two-element array where both elements fail parsing reports exactly two
// accumulated errors, not one, and no success array.
#[test]
fn try_map_or_stash_reports_every_failure() {
    let mut errs = ErrorStash::new(|| "Invalid input");
    let numbers = ["X", "Y"].try_map_or_stash(parse_u8_err, &mut errs);
    assert!(matches!(numbers, StashedResult::Stashed));
    assert_eq!(errs.errors().len(), 2);

    let err = errs.into_result().unwrap_err();
    assert_eq!(err.to_string(), "Invalid input (2 errors)");
}

#[test]
fn try_map_or_stash_handles_result_elements() {
    let mut errs = ErrorStash::new(|| "Invalid input");

    let input: [Result<&str, &str>; 2] = [Ok("42"), Ok("0")];
    let numbers = input.try_map_or_stash(parse_u8_err, &mut errs);
    match numbers {
        StashedResult::Success(v) => assert_eq!(v, vec![42, 0]),
        StashedResult::Stashed => unreachable!(),
    }

    let input: [Result<&str, &str>; 2] = [Err("already broken"), Ok("X")];
    let numbers = input.try_map_or_stash(parse_u8_err, &mut errs);
    assert!(matches!(numbers, StashedResult::Stashed));
    assert_eq!(errs.errors().len(), 2);
}
