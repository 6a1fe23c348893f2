//! Resolution of the JDK home and the `java` and `javac` executables under
//! it, and the pass-through source/target compilation versions.  The caller
//! probes existence and runs the discovery command; the override chain and
//! path construction are verified.

use vstd::prelude::*;

use crate::overrides::opt_str_view;
use crate::overrides::opt_string_view;
use crate::overrides::override_path_spec;
use crate::overrides::path_override;
use crate::text::parsed_u32;

verus! {

/// The resolved JDK home: the `JAVA_HOME` override when set, nonempty and
/// existing, else whatever the platform's discovery command found.
pub open spec fn java_home_spec(
    env_java_home: Option<Seq<char>>,
    env_exists: bool,
    discovered: Option<Seq<char>>,
) -> Option<Seq<char>> {
    match override_path_spec(env_java_home, env_exists) {
        Some(p) => Some(p),
        None => discovered,
    }
}

/// Resolves the JDK home directory.  `discovered` is the result of the
/// platform's discovery command, when one was run and succeeded; absence
/// of both the override and a discovery result is absence, not an error.
pub fn java_home(env_java_home: Option<&str>, env_exists: bool, discovered: Option<&str>) -> (r:
    Option<String>)
    ensures
        opt_string_view(r) == java_home_spec(
            opt_str_view(env_java_home),
            env_exists,
            opt_str_view(discovered),
        ),
{
    match path_override(env_java_home, env_exists) {
        Some(p) => Some(p),
        None => match discovered {
            Some(d) => Some(d.to_owned()),
            None => None,
        },
    }
}

/// The path of the `java` launcher under a JDK home.
pub open spec fn java_bin_spec(home: Seq<char>) -> Seq<char> {
    home + "/bin/java"@
}

pub fn java_bin_path(home: &str) -> (r: String)
    ensures
        r@ == java_bin_spec(home@),
{
    String::from_str(home).concat("/bin/java")
}

/// The path of the `javac` compiler under a JDK home.
pub open spec fn javac_bin_spec(home: Seq<char>) -> Seq<char> {
    home + "/bin/javac"@
}

pub fn javac_bin_path(home: &str) -> (r: String)
    ensures
        r@ == javac_bin_spec(home@),
{
    String::from_str(home).concat("/bin/javac")
}

/// The resolved `java` executable: `<home>/bin/java` for the resolved JDK
/// home, provided that file exists.
pub open spec fn java_spec(
    env_java_home: Option<Seq<char>>,
    env_exists: bool,
    discovered: Option<Seq<char>>,
    bin_exists: bool,
) -> Option<Seq<char>> {
    match java_home_spec(env_java_home, env_exists, discovered) {
        Some(h) => if bin_exists {
            Some(java_bin_spec(h))
        } else {
            None
        },
        None => None,
    }
}

/// Resolves the `java` executable; `java_bin_exists` is the caller's probe
/// of `<resolved home>/bin/java`.
pub fn java(
    env_java_home: Option<&str>,
    env_exists: bool,
    discovered: Option<&str>,
    java_bin_exists: bool,
) -> (r: Option<String>)
    ensures
        opt_string_view(r) == java_spec(
            opt_str_view(env_java_home),
            env_exists,
            opt_str_view(discovered),
            java_bin_exists,
        ),
{
    match java_home(env_java_home, env_exists, discovered) {
        Some(h) => if java_bin_exists {
            Some(java_bin_path(h.as_str()))
        } else {
            None
        },
        None => None,
    }
}

/// The resolved `javac` executable: `<home>/bin/javac` for the resolved
/// JDK home, provided that file exists.
pub open spec fn javac_spec(
    env_java_home: Option<Seq<char>>,
    env_exists: bool,
    discovered: Option<Seq<char>>,
    bin_exists: bool,
) -> Option<Seq<char>> {
    match java_home_spec(env_java_home, env_exists, discovered) {
        Some(h) => if bin_exists {
            Some(javac_bin_spec(h))
        } else {
            None
        },
        None => None,
    }
}

/// Resolves the `javac` compiler; `javac_bin_exists` is the caller's probe
/// of `<resolved home>/bin/javac`.
pub fn javac(
    env_java_home: Option<&str>,
    env_exists: bool,
    discovered: Option<&str>,
    javac_bin_exists: bool,
) -> (r: Option<String>)
    ensures
        opt_string_view(r) == javac_spec(
            opt_str_view(env_java_home),
            env_exists,
            opt_str_view(discovered),
            javac_bin_exists,
        ),
{
    match java_home(env_java_home, env_exists, discovered) {
        Some(h) => if javac_bin_exists {
            Some(javac_bin_path(h.as_str()))
        } else {
            None
        },
        None => None,
    }
}

/// A version variable passed to downstream builders: the variable's value
/// read as a decimal number, absence when unset or unreadable.
pub open spec fn version_var_spec(value: Option<Seq<char>>) -> Option<u32> {
    match value {
        Some(v) => parsed_u32(v),
        None => None,
    }
}

/// The source-compatibility version from `JAVA_SOURCE_VERSION`.
pub fn java_source_version(value: Option<&str>) -> (r: Option<u32>)
    ensures
        r == version_var_spec(opt_str_view(value)),
{
    match value {
        Some(v) => crate::text::parse_u32_str(v),
        None => None,
    }
}

/// The target-compatibility version from `JAVA_TARGET_VERSION`.
pub fn java_target_version(value: Option<&str>) -> (r: Option<u32>)
    ensures
        r == version_var_spec(opt_str_view(value)),
{
    match value {
        Some(v) => crate::text::parse_u32_str(v),
        None => None,
    }
}

} // verus!
