//! Platform-version normalization tests.

use android_build::env_android_platform_api_level;

fn normalize(base: Option<&str>, ext: Option<&str>) -> Option<String> {
    env_android_platform_api_level(None, base, None, None, ext)
}

#[test]
fn prefix_is_added_once() {
    assert_eq!(normalize(Some("33"), None).unwrap(), "android-33");
}

#[test]
fn prefix_is_idempotent() {
    assert_eq!(normalize(Some("android-33"), None).unwrap(), "android-33");
}

#[test]
fn extension_forms_are_equivalent() {
    assert_eq!(normalize(Some("android-33"), Some("4")).unwrap(), "android-33-ext4");
    assert_eq!(normalize(Some("android-33"), Some("ext4")).unwrap(), "android-33-ext4");
    assert_eq!(normalize(Some("android-33"), Some("-ext4")).unwrap(), "android-33-ext4");
}

#[test]
fn extension_applies_to_unprefixed_base() {
    assert_eq!(normalize(Some("33"), Some("4")).unwrap(), "android-33-ext4");
}

#[test]
fn base_extension_takes_precedence() {
    assert_eq!(normalize(Some("android-33-ext2"), Some("9")).unwrap(), "android-33-ext2");
}

#[test]
fn non_numeric_extension_is_ignored() {
    assert_eq!(normalize(Some("android-33"), Some("abc")).unwrap(), "android-33");
    assert_eq!(normalize(Some("android-33"), Some("ext")).unwrap(), "android-33");
    assert_eq!(normalize(Some("android-33"), Some("-")).unwrap(), "android-33");
    assert_eq!(normalize(Some("android-33"), Some("")).unwrap(), "android-33");
}

#[test]
fn all_unset_is_absence() {
    assert_eq!(env_android_platform_api_level(None, None, None, None, None), None);
}

#[test]
fn empty_base_behaves_as_unset() {
    // An override variable set to the empty string is skipped like an
    // unset one, both when another variable supplies the base ...
    assert_eq!(
        env_android_platform_api_level(None, Some(""), Some("33"), None, None).unwrap(),
        "android-33",
    );
    // ... and when nothing else does.
    assert_eq!(env_android_platform_api_level(None, Some(""), None, None, None), None);
}

#[test]
fn base_variables_rank_equally_in_order() {
    assert_eq!(
        env_android_platform_api_level(None, Some("31"), Some("32"), Some("33"), None).unwrap(),
        "android-31",
    );
    assert_eq!(
        env_android_platform_api_level(None, None, Some("32"), Some("33"), None).unwrap(),
        "android-32",
    );
    assert_eq!(
        env_android_platform_api_level(None, None, None, Some("33"), None).unwrap(),
        "android-33",
    );
}

#[test]
fn explicit_platform_string_bypasses_env() {
    assert_eq!(
        env_android_platform_api_level(Some("android-21"), Some("31"), Some("32"), Some("33"), None)
            .unwrap(),
        "android-21",
    );
    // The explicit argument is normalized like any base.
    assert_eq!(
        env_android_platform_api_level(Some("21"), Some("31"), None, None, None).unwrap(),
        "android-21",
    );
}
