//! JDK home, executable, and discovery-output tests.

use android_build::java;
use android_build::java_bin_path;
use android_build::java_discovery_path;
use android_build::java_home;
use android_build::java_home_from_discovered;
use android_build::java_source_version;
use android_build::java_target_version;
use android_build::javac;
use android_build::javac_bin_path;
use android_build::parent_dir;
use android_build::resolve_link_step;
use android_build::DebugInfo;
use android_build::HostPlatform;

#[test]
fn java_home_override_wins() {
    let r = java_home(Some("/opt/jdk"), true, Some("/usr/lib/jvm/java-17"));
    assert_eq!(r.unwrap(), "/opt/jdk");
}

#[test]
fn java_home_falls_back_to_discovery() {
    // Set but missing, and empty-but-existing, overrides both fall through.
    let r = java_home(Some("/opt/jdk"), false, Some("/usr/lib/jvm/java-17"));
    assert_eq!(r.unwrap(), "/usr/lib/jvm/java-17");
    let r = java_home(Some(""), true, Some("/usr/lib/jvm/java-17"));
    assert_eq!(r.unwrap(), "/usr/lib/jvm/java-17");
}

#[test]
fn java_home_unavailable_discovery_is_absence() {
    assert_eq!(java_home(None, false, None), None);
}

#[test]
fn java_and_javac_paths() {
    assert_eq!(java_bin_path("/opt/jdk"), "/opt/jdk/bin/java");
    assert_eq!(javac_bin_path("/opt/jdk"), "/opt/jdk/bin/javac");
    assert_eq!(java(Some("/opt/jdk"), true, None, true).unwrap(), "/opt/jdk/bin/java");
    assert_eq!(javac(Some("/opt/jdk"), true, None, true).unwrap(), "/opt/jdk/bin/javac");
    // The executable itself must exist.
    assert_eq!(java(Some("/opt/jdk"), true, None, false), None);
    assert_eq!(javac(None, false, None, true), None);
}

#[test]
fn source_and_target_versions_parse() {
    assert_eq!(java_source_version(Some("17")), Some(17));
    assert_eq!(java_target_version(Some("8")), Some(8));
    assert_eq!(java_source_version(Some("")), None);
    assert_eq!(java_source_version(Some("17x")), None);
    assert_eq!(java_source_version(None), None);
    assert_eq!(java_target_version(Some("4294967296")), None);
}

#[test]
fn discovery_single_line_is_trimmed() {
    let r = java_discovery_path("/usr/bin/java\n");
    assert_eq!(r.unwrap(), "/usr/bin/java");
}

#[test]
fn discovery_multiple_lines_take_the_last() {
    let r = java_discovery_path("/usr/bin/java\n/opt/jdk/bin/java\n");
    assert_eq!(r.unwrap(), "/opt/jdk/bin/java");
}

#[test]
fn discovery_handles_crlf_output() {
    assert_eq!(
        java_discovery_path("C:/jdk1/bin/java.exe\r\nC:/jdk2/bin/java.exe\r\n").unwrap(),
        "C:/jdk2/bin/java.exe",
    );
}

#[test]
fn discovery_empty_output_is_absence() {
    assert_eq!(java_discovery_path(""), None);
    assert_eq!(java_discovery_path("\n"), None);
    assert_eq!(java_discovery_path("   \n  "), None);
}

#[test]
fn link_step_absolute_target_replaces() {
    assert_eq!(resolve_link_step("/etc/alternatives/java", "/usr/lib/jvm/java-17/bin/java", true),
        "/usr/lib/jvm/java-17/bin/java");
}

#[test]
fn link_step_relative_target_joins_parent() {
    assert_eq!(resolve_link_step("/usr/bin/java", "../lib/jvm/java/bin/java", false),
        "/usr/bin/../lib/jvm/java/bin/java");
    assert_eq!(resolve_link_step("java", "java-17", false), "java-17");
}

#[test]
fn parent_dir_strips_one_segment() {
    assert_eq!(parent_dir("/opt/jdk/bin/java"), "/opt/jdk/bin");
    assert_eq!(parent_dir("java"), "");
}

#[test]
fn discovered_home_strips_bin_java_except_macos() {
    assert_eq!(
        java_home_from_discovered(HostPlatform::Linux, "/opt/jdk/bin/java"),
        "/opt/jdk",
    );
    assert_eq!(
        java_home_from_discovered(HostPlatform::Windows, "C:/jdk/bin/java"),
        "C:/jdk",
    );
    assert_eq!(
        java_home_from_discovered(HostPlatform::MacOs, "/Library/Java/Home"),
        "/Library/Java/Home",
    );
}

#[test]
fn debug_info_args() {
    let all = DebugInfo::default();
    assert_eq!(all.debug_args(), vec!["-g:lines", "-g:vars", "-g:source"]);
    let none = DebugInfo { line_numbers: false, variables: false, source_files: false };
    assert_eq!(none.debug_args(), vec!["-g:none"]);
    let some = DebugInfo { line_numbers: true, variables: false, source_files: true };
    assert_eq!(some.debug_args(), vec!["-g:lines", "-g:source"]);
}
