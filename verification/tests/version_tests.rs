//! Version-number parsing and filtering.

use lazy_errors::is_accepted;
use lazy_errors::parse_and_filter;
use lazy_errors::parse_git_describe_output;
use lazy_errors::parse_major_minor_patch;
use lazy_errors::MajorMinorPatch;
use lazy_errors::Pattern;
use lazy_errors::VersionNumber;

fn mmp(major: u16, minor: u16, patch: u16) -> VersionNumber {
    VersionNumber::MajorMinorPatch(MajorMinorPatch {
        major,
        minor,
        patch,
    })
}

#[test]
fn parse_major_minor_patch_multiple_err() {
    let err = parse_major_minor_patch("-1.-2.-3").unwrap_err();
    let msg = err.to_pretty_string();

    assert!(msg.starts_with("Doesn't match MAJOR.MINOR.PATCH: '-1.-2.-3'"));
    assert!(msg.contains("Invalid number: '-1'"));
    assert!(msg.contains("Invalid number: '-2'"));
    assert!(msg.contains("Invalid number: '-3'"));
}

#[test]
fn parse_major_minor_patch_accepts_regular_versions() {
    let v = parse_major_minor_patch("1.2.3").unwrap();
    assert_eq!(v.to_string(), "1.2.3");
    assert_eq!((v.major, v.minor, v.patch), (1, 2, 3));
}

#[test]
fn parse_major_minor_patch_rejects_wrong_part_counts() {
    let err = parse_major_minor_patch("1.2").unwrap_err();
    let msg = err.to_pretty_string();
    assert!(msg.starts_with("Doesn't match MAJOR.MINOR.PATCH: '1.2'"));
    assert!(msg.contains("Invalid number of parts separated by '.'"));
}

#[test]
fn parse_git_describe_output_cases() {
    assert_eq!(parse_git_describe_output("1.2.3").unwrap().to_string(), "1.2.3");
    assert_eq!(parse_git_describe_output("v1.2.3").unwrap().to_string(), "1.2.3");
    assert_eq!(parse_git_describe_output("v0.0.7").unwrap().to_string(), "0.0.7");
    assert_eq!(
        parse_git_describe_output("0.5.0-2-ga712af5").unwrap().to_string(),
        "0.5.0-2-ga712af5"
    );
    assert_eq!(
        parse_git_describe_output("v0.5.0-2-ga712af5").unwrap().to_string(),
        "0.5.0-2-ga712af5"
    );
    assert_eq!(
        parse_git_describe_output(" \n  v0.5.0-2-ga712af5 \n  ").unwrap().to_string(),
        "0.5.0-2-ga712af5"
    );
    assert_eq!(parse_git_describe_output("abcdef").unwrap().to_string(), "abcdef");
    assert_eq!(parse_git_describe_output("-1.-2.-3").unwrap().to_string(), "-1.-2.-3");
}

#[test]
fn parse_git_describe_output_rejects_blank_input() {
    assert!(parse_git_describe_output("").is_err());
    assert!(parse_git_describe_output(" \n\t\r").is_err());
}

#[test]
fn is_accepted_cases() {
    let custom = parse_git_describe_output("0.5.0-2-ga712af5").unwrap();

    assert!(is_accepted(&mmp(0, 0, 0), &[]));
    assert!(is_accepted(&custom, &[]));
    assert!(is_accepted(&mmp(1, 2, 3), &[Pattern::MajorMinorPatch]));
    assert!(!is_accepted(&custom, &[Pattern::MajorMinorPatch]));
    assert!(is_accepted(
        &mmp(7, 0, 0),
        &[Pattern::MajorMinorPatch, Pattern::MajorMinorPatch]
    ));
    assert!(!is_accepted(
        &custom,
        &[Pattern::MajorMinorPatch, Pattern::MajorMinorPatch]
    ));
}

#[test]
fn parse_and_filter_cases() {
    assert_eq!(parse_and_filter("1.2.3", &[]).unwrap().to_string(), "1.2.3");
    assert_eq!(
        parse_and_filter("v1.2.3", &[Pattern::MajorMinorPatch]).unwrap().to_string(),
        "1.2.3"
    );
    assert_eq!(
        parse_and_filter("0.5.0-2-ga712af5", &[]).unwrap().to_string(),
        "0.5.0-2-ga712af5"
    );

    let err = parse_and_filter("0.5.0-2-ga712af5", &[Pattern::MajorMinorPatch]).unwrap_err();
    assert_eq!(
        err.to_string(),
        "Version '0.5.0-2-ga712af5' does not match any `accept` parameter"
    );
}

#[test]
fn display_version_number() {
    assert_eq!(mmp(0, 0, 0).to_string(), "0.0.0");
    assert_eq!(mmp(0, 7, 0).to_string(), "0.7.0");
    assert_eq!(mmp(1, 2, 3).to_string(), "1.2.3");
}
