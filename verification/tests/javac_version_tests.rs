//! Version-banner parsing and version-detection outcome tests.

use android_build::javac_version_from_output;
use android_build::parse_javac_version_output;
use android_build::JavacVersionError;

#[test]
fn test_parse_javac_version() {
    assert_eq!(parse_javac_version_output("javac 1.8.0_292"), 8);
    assert_eq!(parse_javac_version_output("javac 17.0.13"), 17);
    assert_eq!(parse_javac_version_output("javac 21.0.5"), 21);
    assert_eq!(parse_javac_version_output("javac 24-ea"), 24);
    assert_eq!(parse_javac_version_output("error"), 0);
    assert_eq!(parse_javac_version_output("javac error"), 0);
}

#[test]
fn parse_legacy_scheme_takes_second_component() {
    assert_eq!(parse_javac_version_output("javac 1.7.0"), 7);
    assert_eq!(parse_javac_version_output("javac 1.8"), 8);
    // A bare "1" has no second component to fall back to.
    assert_eq!(parse_javac_version_output("javac 1"), 0);
}

#[test]
fn parse_handles_whitespace_variants() {
    assert_eq!(parse_javac_version_output("  javac   17.0.13  "), 17);
    assert_eq!(parse_javac_version_output("javac\t21.0.5\n"), 21);
    assert_eq!(parse_javac_version_output(""), 0);
    assert_eq!(parse_javac_version_output("   "), 0);
}

#[test]
fn parse_prerelease_suffix_is_dropped() {
    assert_eq!(parse_javac_version_output("javac 23-ea.2"), 23);
    assert_eq!(parse_javac_version_output("javac -ea"), 0);
}

#[test]
fn parse_huge_version_is_failure() {
    // The largest value that fits still parses ...
    assert_eq!(parse_javac_version_output("javac 2147483647"), 2147483647);
    // ... one more does not.
    assert_eq!(parse_javac_version_output("javac 2147483648"), 0);
}

#[test]
fn detect_reads_stdout_banner() {
    let r = javac_version_from_output(true, "javac 17.0.13", "");
    assert_eq!(r.unwrap(), 17);
}

#[test]
fn detect_falls_back_to_stderr_banner() {
    // Old releases write the banner to standard error.
    let r = javac_version_from_output(true, "", "javac 1.8.0_292");
    assert_eq!(r.unwrap(), 8);
}

#[test]
fn detect_prefers_nonempty_stdout() {
    let r = javac_version_from_output(true, "javac 21.0.5", "javac 1.8.0_292");
    assert_eq!(r.unwrap(), 21);
}

#[test]
fn detect_reports_failed_subprocess_with_stderr_text() {
    let r = javac_version_from_output(false, "javac 17.0.13", "no such file");
    match r {
        Err(JavacVersionError::SubprocessFailed { stderr }) => {
            assert_eq!(stderr, "no such file");
        },
        _ => panic!("expected a subprocess failure"),
    }
}

#[test]
fn detect_reports_unparseable_banner_text() {
    let r = javac_version_from_output(true, "gibberish", "");
    match r {
        Err(JavacVersionError::UnparseableBanner { banner }) => {
            assert_eq!(banner, "gibberish");
        },
        _ => panic!("expected an unparseable banner"),
    }
}
