//! Environment-override chain tests.

use android_build::env_override_path;
use android_build::env_override_value;
use android_build::path_override;

#[test]
fn first_nonempty_value_wins() {
    let values = vec![None, Some(String::new()), Some("a".to_string()), Some("b".to_string())];
    assert_eq!(env_override_value(&values).unwrap(), "a");
}

#[test]
fn empty_values_behave_as_unset() {
    let values = vec![Some(String::new()), None];
    assert_eq!(env_override_value(&values), None);
}

#[test]
fn path_needs_existence_too() {
    let values = vec![Some("/a".to_string()), Some("/b".to_string())];
    assert_eq!(env_override_path(&values, &vec![false, true]).unwrap(), "/b");
    assert_eq!(env_override_path(&values, &vec![true, true]).unwrap(), "/a");
    assert_eq!(env_override_path(&values, &vec![false, false]), None);
}

#[test]
fn single_path_override_rules() {
    assert_eq!(path_override(Some("/a"), true).unwrap(), "/a");
    assert_eq!(path_override(Some("/a"), false), None);
    assert_eq!(path_override(Some(""), true), None);
    assert_eq!(path_override(None, true), None);
}
