//! SDK root and jar resolution tests.

use android_build::android_d8_jar;
use android_build::android_d8_jar_path;
use android_build::android_d8_jar_version;
use android_build::android_jar;
use android_build::android_jar_path;
use android_build::android_jar_version;
use android_build::android_sdk;
use android_build::find_android_sdk;
use android_build::HostPlatform;

fn owned(names: &[&str]) -> Vec<String> {
    names.iter().map(|s| s.to_string()).collect()
}

#[test]
fn default_sdk_location_per_platform() {
    assert_eq!(
        find_android_sdk(HostPlatform::MacOs, Some("/Users/me")).unwrap(),
        "/Users/me/Library/Android/sdk",
    );
    assert_eq!(
        find_android_sdk(HostPlatform::Linux, Some("/home/me")).unwrap(),
        "/home/me/Android/Sdk",
    );
    assert_eq!(
        find_android_sdk(HostPlatform::Windows, Some("C:/Users/me")).unwrap(),
        "C:/Users/me/AppData/Local/Android/Sdk",
    );
}

#[test]
fn unavailable_home_or_platform_is_absence() {
    // No home directory, or no default on this platform: absence, never
    // an error.
    assert_eq!(find_android_sdk(HostPlatform::Linux, None), None);
    assert_eq!(find_android_sdk(HostPlatform::Unsupported, Some("/home/me")), None);
}

#[test]
fn sdk_first_existing_override_wins() {
    let r = android_sdk(
        Some("/opt/sdk-a"),
        true,
        Some("/opt/sdk-b"),
        true,
        HostPlatform::Linux,
        Some("/home/me"),
        true,
    );
    assert_eq!(r.unwrap(), "/opt/sdk-a");
}

#[test]
fn sdk_missing_override_falls_through() {
    // ANDROID_HOME set but not existing: ANDROID_SDK_ROOT is tried next.
    let r = android_sdk(
        Some("/opt/sdk-a"),
        false,
        Some("/opt/sdk-b"),
        true,
        HostPlatform::Linux,
        Some("/home/me"),
        true,
    );
    assert_eq!(r.unwrap(), "/opt/sdk-b");
}

#[test]
fn sdk_default_location_is_last_resort() {
    let r = android_sdk(None, false, Some(""), true, HostPlatform::Linux, Some("/home/me"), true);
    assert_eq!(r.unwrap(), "/home/me/Android/Sdk");
}

#[test]
fn sdk_nothing_available_is_absence() {
    let r = android_sdk(None, false, None, false, HostPlatform::Linux, Some("/home/me"), false);
    assert_eq!(r, None);
}

#[test]
fn jar_env_override_bypasses_sdk_lookup() {
    let names = owned(&["android-33"]);
    let marks = vec![true];
    let r = android_jar(
        Some("/custom/android.jar"),
        true,
        Some("android-21"),
        None,
        None,
        None,
        None,
        Some("/opt/sdk"),
        &names,
        &marks,
        true,
    );
    assert_eq!(r.unwrap(), "/custom/android.jar");
}

#[test]
fn jar_explicit_platform_string_is_used() {
    let names = owned(&["android-33"]);
    let marks = vec![true];
    let r = android_jar(
        None,
        false,
        Some("android-21"),
        Some("31"),
        Some("32"),
        Some("33"),
        None,
        Some("/opt/sdk"),
        &names,
        &marks,
        true,
    );
    assert_eq!(r.unwrap(), "/opt/sdk/platforms/android-21/android.jar");
}

#[test]
fn jar_scan_is_fallback_only() {
    let names = owned(&["android-33", "android-34"]);
    let marks = vec![true, true];
    let r = android_jar(
        None, false, None, None, None, None, None, Some("/opt/sdk"), &names, &marks, true,
    );
    assert_eq!(r.unwrap(), "/opt/sdk/platforms/android-34/android.jar");
}

#[test]
fn jar_without_sdk_is_absence() {
    let names = owned(&["android-33"]);
    let marks = vec![true];
    let r = android_jar(None, false, None, None, None, None, None, None, &names, &marks, true);
    assert_eq!(r, None);
}

#[test]
fn jar_missing_file_is_absence() {
    let names: Vec<String> = Vec::new();
    let marks: Vec<bool> = Vec::new();
    let r = android_jar(
        None,
        false,
        Some("android-33"),
        None,
        None,
        None,
        None,
        Some("/opt/sdk"),
        &names,
        &marks,
        false,
    );
    assert_eq!(r, None);
}

#[test]
fn jar_version_choice_and_path() {
    let names = owned(&["android-30", "android-31"]);
    let marks = vec![true, true];
    assert_eq!(
        android_jar_version(None, Some("33"), None, None, Some("4"), &names, &marks).unwrap(),
        "android-33-ext4",
    );
    assert_eq!(
        android_jar_version(None, None, None, None, None, &names, &marks).unwrap(),
        "android-31",
    );
    assert_eq!(
        android_jar_path("/opt/sdk", "android-33"),
        "/opt/sdk/platforms/android-33/android.jar",
    );
}

#[test]
fn d8_env_override_bypasses_sdk_lookup() {
    let names = owned(&["34.0.0"]);
    let marks = vec![true];
    let r = android_d8_jar(
        Some("/custom/d8.jar"),
        true,
        None,
        Some("33.0.1"),
        Some("/opt/sdk"),
        &names,
        &marks,
        true,
    );
    assert_eq!(r.unwrap(), "/custom/d8.jar");
}

#[test]
fn d8_version_argument_beats_env_and_scan() {
    let names = owned(&["34.0.0"]);
    let marks = vec![true];
    let r = android_d8_jar(
        None,
        false,
        Some("33.0.1"),
        Some("32.0.0"),
        Some("/opt/sdk"),
        &names,
        &marks,
        true,
    );
    assert_eq!(r.unwrap(), "/opt/sdk/build-tools/33.0.1/lib/d8.jar");
}

#[test]
fn d8_version_choice_and_path() {
    let names = owned(&["33.0.1", "34.0.0-rc2"]);
    let marks = vec![true, true];
    assert_eq!(
        android_d8_jar_version(None, None, &names, &marks).unwrap(),
        "34.0.0-rc2",
    );
    assert_eq!(
        android_d8_jar_version(None, Some("33.0.1"), &names, &marks).unwrap(),
        "33.0.1",
    );
    // An empty variable behaves as unset and the scan decides.
    assert_eq!(
        android_d8_jar_version(None, Some(""), &names, &marks).unwrap(),
        "34.0.0-rc2",
    );
    assert_eq!(
        android_d8_jar_path("/opt/sdk", "34.0.0"),
        "/opt/sdk/build-tools/34.0.0/lib/d8.jar",
    );
}
