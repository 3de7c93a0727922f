//! The text utilities: decimal rendering and location normalization.

use lazy_errors::doctest_line_num_helper;
use lazy_errors::require_command;
use lazy_errors::str_or_stash;
use lazy_errors::usize_to_string;
use lazy_errors::ErrorStash;

#[test]
fn decimal_rendering_exact_values() {
    assert_eq!(usize_to_string(0), "0");
    assert_eq!(usize_to_string(7), "7");
    assert_eq!(usize_to_string(42), "42");
    assert_eq!(usize_to_string(1000), "1000");
    assert_eq!(usize_to_string(65535), "65535");
}

#[test]
fn normalizer_replaces_locations() {
    assert_eq!(
        doctest_line_num_helper("at lazy_errors/src/stash.rs:123:45"),
        "at src/stash.rs:1234:56"
    );
    assert_eq!(
        doctest_line_num_helper("x\n  at lazy_errors/src/stash.rs:0:0\nrest"),
        "x\n  at src/stash.rs:1234:56\nrest"
    );
    assert_eq!(doctest_line_num_helper("a.rs:12:34 b"), "a.rs:1234:56 b");
    assert_eq!(doctest_line_num_helper("no location here"), "no location here");
    assert_eq!(doctest_line_num_helper("a\\b"), "a/b");
    assert_eq!(doctest_line_num_helper(".rs: not digits"), ".rs: not digits");
}

// Digits with no following column are removed and leave `.rs:` bare; an
// `.rs::`, bare or with digits, becomes the mock location.
#[test]
fn normalizer_handles_partial_locations() {
    assert_eq!(doctest_line_num_helper("foo.rs:9 bar"), "foo.rs: bar");
    assert_eq!(doctest_line_num_helper("foo.rs:987 bar"), "foo.rs: bar");
    assert_eq!(doctest_line_num_helper("foo.rs:: bar"), "foo.rs:1234:56 bar");
    assert_eq!(doctest_line_num_helper("foo.rs::9 bar"), "foo.rs:1234:56 bar");
    assert_eq!(doctest_line_num_helper("foo.rs:1: bar"), "foo.rs:1234:56 bar");
}

// Decoding captured output: valid UTF-8 comes back trimmed with the stash
// untouched; invalid bytes stash one wrapped decoding failure.
#[test]
fn str_or_stash_decodes_and_trims() {
    let mut errs: ErrorStash<_, &str> = ErrorStash::new(|| "Output was garbage");
    let text = str_or_stash(b"  hello world \n", &mut errs);
    assert_eq!(text, "hello world");
    assert!(errs.is_empty());

    let text = str_or_stash(&[0x66, 0x6f, 0xff, 0x6f], &mut errs);
    assert_eq!(text, "");
    assert_eq!(errs.errors().len(), 1);
    let err = errs.into_result().unwrap_err();
    assert!(err
        .to_string()
        .starts_with("Output was garbage: Cannot create string: Invalid byte(s): "));
}

#[test]
fn require_command_rejects_an_empty_command_line() {
    assert!(require_command(&["cargo", "version"]).is_ok());
    let err = require_command(&[]).unwrap_err();
    assert_eq!(err.to_string(), "No command passed.");
}
