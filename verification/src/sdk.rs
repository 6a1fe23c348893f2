//! Resolution of the Android SDK root and the artifacts under it: the
//! `android.jar` of a platform version and the `d8.jar` of a build-tools
//! version.  Each resolver is a pure function of the environment values,
//! existence probes, and directory listings handed in by the caller; every
//! override chain and fallback decision on them is verified.

use vstd::prelude::*;

use crate::overrides::clone_opt_str;
use crate::overrides::env_override_path;
use crate::overrides::env_override_value;
use crate::overrides::opt_str_view;
use crate::overrides::opt_string_view;
use crate::overrides::override_path_idx;
use crate::overrides::override_path_spec;
use crate::overrides::override_path_vec_spec;
use crate::overrides::override_value_idx;
use crate::overrides::path_override;
use crate::platform::default_sdk_dir_spec;
use crate::platform::HostPlatform;
use crate::scan::find_latest_version;
use crate::scan::latest_spec;
use crate::version::env_android_platform_api_level;
use crate::version::platform_version_spec;

verus! {

/// The resolved SDK root: the first of `ANDROID_HOME`, `ANDROID_SDK_ROOT`
/// and the platform's default location that is nonempty and exists.
pub open spec fn android_sdk_spec(
    android_home: Option<Seq<char>>,
    android_home_exists: bool,
    sdk_root: Option<Seq<char>>,
    sdk_root_exists: bool,
    platform: HostPlatform,
    home: Option<Seq<char>>,
    default_exists: bool,
) -> Option<Seq<char>> {
    if override_path_spec(android_home, android_home_exists) is Some {
        override_path_spec(android_home, android_home_exists)
    } else if override_path_spec(sdk_root, sdk_root_exists) is Some {
        override_path_spec(sdk_root, sdk_root_exists)
    } else {
        override_path_spec(default_sdk_dir_spec(platform, home), default_exists)
    }
}

/// Resolves the Android SDK directory: the `ANDROID_HOME` override first,
/// then `ANDROID_SDK_ROOT`, then the platform's default installation
/// location — each accepted only when set, nonempty and existing.  The
/// caller probes existence: `android_home_exists` and `sdk_root_exists`
/// for the two variable values, `default_exists` for the default location.
pub fn android_sdk(
    android_home: Option<&str>,
    android_home_exists: bool,
    sdk_root: Option<&str>,
    sdk_root_exists: bool,
    platform: HostPlatform,
    home: Option<&str>,
    default_exists: bool,
) -> (r: Option<String>)
    ensures
        opt_string_view(r) == android_sdk_spec(
            opt_str_view(android_home),
            android_home_exists,
            opt_str_view(sdk_root),
            sdk_root_exists,
            platform,
            opt_str_view(home),
            default_exists,
        ),
{
    let default_dir = crate::platform::find_android_sdk(platform, home);
    let mut candidates: Vec<Option<String>> = Vec::new();
    candidates.push(clone_opt_str(android_home));
    candidates.push(clone_opt_str(sdk_root));
    candidates.push(default_dir);
    let mut exists: Vec<bool> = Vec::new();
    exists.push(android_home_exists);
    exists.push(sdk_root_exists);
    exists.push(default_exists);
    proof {
        reveal_with_fuel(override_path_idx, 5);
        assert(override_path_vec_spec(candidates@, exists@) == android_sdk_spec(
            opt_str_view(android_home),
            android_home_exists,
            opt_str_view(sdk_root),
            sdk_root_exists,
            platform,
            opt_str_view(home),
            default_exists,
        ));
    }
    env_override_path(&candidates, &exists)
}

/// The platform version used for the `android.jar` lookup: the normalized
/// environment-driven version when available, else the latest installed
/// version found by scanning the `platforms` directory.
pub open spec fn android_jar_version_spec(
    platform_string: Option<Seq<char>>,
    platform_var: Option<Seq<char>>,
    api_level: Option<Seq<char>>,
    sdk_version: Option<Seq<char>>,
    sdk_extension: Option<Seq<char>>,
    names: Seq<String>,
    marks: Seq<bool>,
) -> Option<Seq<char>> {
    match platform_version_spec(
        platform_string,
        platform_var,
        api_level,
        sdk_version,
        sdk_extension,
    ) {
        Some(v) => Some(v),
        None => latest_spec(names, marks),
    }
}

/// Chooses the platform version for the jar lookup; `names` are the
/// subdirectories of the SDK `platforms` directory and `has_jar[i]` reports
/// whether `names[i]` contains an `android.jar`.  The filesystem scan is a
/// fallback only: it never overrides an explicit version.
pub fn android_jar_version(
    platform_string: Option<&str>,
    platform_var: Option<&str>,
    api_level: Option<&str>,
    sdk_version: Option<&str>,
    sdk_extension: Option<&str>,
    names: &Vec<String>,
    has_jar: &Vec<bool>,
) -> (r: Option<String>)
    requires
        names@.len() == has_jar@.len(),
    ensures
        opt_string_view(r) == android_jar_version_spec(
            opt_str_view(platform_string),
            opt_str_view(platform_var),
            opt_str_view(api_level),
            opt_str_view(sdk_version),
            opt_str_view(sdk_extension),
            names@,
            has_jar@,
        ),
{
    match env_android_platform_api_level(
        platform_string,
        platform_var,
        api_level,
        sdk_version,
        sdk_extension,
    ) {
        Some(v) => Some(v),
        None => find_latest_version(names, has_jar),
    }
}

/// The path of the `android.jar` of one platform version under an SDK root.
pub open spec fn platforms_jar_path_spec(sdk: Seq<char>, version: Seq<char>) -> Seq<char> {
    sdk + "/platforms/"@ + version + "/android.jar"@
}

pub fn android_jar_path(sdk: &str, version: &str) -> (r: String)
    ensures
        r@ == platforms_jar_path_spec(sdk@, version@),
{
    let r = String::from_str(sdk).concat("/platforms/").concat(version).concat("/android.jar");
    proof {
        assert(r@ =~= platforms_jar_path_spec(sdk@, version@));
    }
    r
}

/// The resolved `android.jar`: the `ANDROID_JAR` override bypasses the SDK
/// lookup entirely; otherwise the jar of the chosen platform version under
/// the resolved SDK root, provided that file exists.
pub open spec fn android_jar_spec(
    jar_override: Option<Seq<char>>,
    jar_override_exists: bool,
    platform_string: Option<Seq<char>>,
    platform_var: Option<Seq<char>>,
    api_level: Option<Seq<char>>,
    sdk_version: Option<Seq<char>>,
    sdk_extension: Option<Seq<char>>,
    sdk: Option<Seq<char>>,
    names: Seq<String>,
    marks: Seq<bool>,
    resolved_jar_exists: bool,
) -> Option<Seq<char>> {
    match override_path_spec(jar_override, jar_override_exists) {
        Some(p) => Some(p),
        None => match sdk {
            None => None,
            Some(sd) => match android_jar_version_spec(
                platform_string,
                platform_var,
                api_level,
                sdk_version,
                sdk_extension,
                names,
                marks,
            ) {
                None => None,
                Some(v) => if resolved_jar_exists {
                    Some(platforms_jar_path_spec(sd, v))
                } else {
                    None
                },
            },
        },
    }
}

/// Resolves the `android.jar` for the targeted platform version.  The
/// caller supplies the environment values, the resolved SDK root, the
/// `platforms` directory listing with its marker probes, and one final
/// probe: `resolved_jar_exists` says whether the jar at the path this
/// function would otherwise return exists.
pub fn android_jar(
    jar_override: Option<&str>,
    jar_override_exists: bool,
    platform_string: Option<&str>,
    platform_var: Option<&str>,
    api_level: Option<&str>,
    sdk_version: Option<&str>,
    sdk_extension: Option<&str>,
    sdk: Option<&str>,
    names: &Vec<String>,
    has_jar: &Vec<bool>,
    resolved_jar_exists: bool,
) -> (r: Option<String>)
    requires
        names@.len() == has_jar@.len(),
    ensures
        opt_string_view(r) == android_jar_spec(
            opt_str_view(jar_override),
            jar_override_exists,
            opt_str_view(platform_string),
            opt_str_view(platform_var),
            opt_str_view(api_level),
            opt_str_view(sdk_version),
            opt_str_view(sdk_extension),
            opt_str_view(sdk),
            names@,
            has_jar@,
            resolved_jar_exists,
        ),
{
    if let Some(p) = path_override(jar_override, jar_override_exists) {
        return Some(p);
    }
    let sd = match sdk {
        Some(x) => x,
        None => {
            return None;
        },
    };
    let version = match android_jar_version(
        platform_string,
        platform_var,
        api_level,
        sdk_version,
        sdk_extension,
        names,
        has_jar,
    ) {
        Some(v) => v,
        None => {
            return None;
        },
    };
    if resolved_jar_exists {
        Some(android_jar_path(sd, version.as_str()))
    } else {
        None
    }
}

/// The build-tools version used for the `d8.jar` lookup: the caller
/// argument, else the `ANDROID_BUILD_TOOLS_VERSION` variable, else the
/// latest installed version found by scanning the `build-tools` directory.
pub open spec fn d8_version_spec(
    build_tools_version: Option<Seq<char>>,
    env_build_tools: Option<Seq<char>>,
    names: Seq<String>,
    marks: Seq<bool>,
) -> Option<Seq<char>> {
    if build_tools_version is Some && build_tools_version->0.len() > 0 {
        build_tools_version
    } else if env_build_tools is Some && env_build_tools->0.len() > 0 {
        env_build_tools
    } else {
        latest_spec(names, marks)
    }
}

/// Chooses the build-tools version for the `d8.jar` lookup; `names` are
/// the subdirectories of the SDK `build-tools` directory and `has_d8[i]`
/// reports whether `names[i]` contains a `lib/d8.jar`.
pub fn android_d8_jar_version(
    build_tools_version: Option<&str>,
    env_build_tools: Option<&str>,
    names: &Vec<String>,
    has_d8: &Vec<bool>,
) -> (r: Option<String>)
    requires
        names@.len() == has_d8@.len(),
    ensures
        opt_string_view(r) == d8_version_spec(
            opt_str_view(build_tools_version),
            opt_str_view(env_build_tools),
            names@,
            has_d8@,
        ),
{
    let mut candidates: Vec<Option<String>> = Vec::new();
    candidates.push(clone_opt_str(build_tools_version));
    candidates.push(clone_opt_str(env_build_tools));
    proof {
        reveal_with_fuel(override_value_idx, 4);
    }
    match env_override_value(&candidates) {
        Some(v) => Some(v),
        None => find_latest_version(names, has_d8),
    }
}

/// The path of the `d8.jar` of one build-tools version under an SDK root.
pub open spec fn d8_jar_path_spec(sdk: Seq<char>, version: Seq<char>) -> Seq<char> {
    sdk + "/build-tools/"@ + version + "/lib/d8.jar"@
}

pub fn android_d8_jar_path(sdk: &str, version: &str) -> (r: String)
    ensures
        r@ == d8_jar_path_spec(sdk@, version@),
{
    let r = String::from_str(sdk).concat("/build-tools/").concat(version).concat("/lib/d8.jar");
    proof {
        assert(r@ =~= d8_jar_path_spec(sdk@, version@));
    }
    r
}

/// The resolved `d8.jar`: the `ANDROID_D8_JAR` override bypasses the SDK
/// lookup entirely; otherwise the jar of the chosen build-tools version
/// under the resolved SDK root, provided that file exists.
pub open spec fn android_d8_jar_spec(
    d8_override: Option<Seq<char>>,
    d8_override_exists: bool,
    build_tools_version: Option<Seq<char>>,
    env_build_tools: Option<Seq<char>>,
    sdk: Option<Seq<char>>,
    names: Seq<String>,
    marks: Seq<bool>,
    resolved_jar_exists: bool,
) -> Option<Seq<char>> {
    match override_path_spec(d8_override, d8_override_exists) {
        Some(p) => Some(p),
        None => match sdk {
            None => None,
            Some(sd) => match d8_version_spec(build_tools_version, env_build_tools, names, marks) {
                None => None,
                Some(v) => if resolved_jar_exists {
                    Some(d8_jar_path_spec(sd, v))
                } else {
                    None
                },
            },
        },
    }
}

/// Resolves the `d8.jar` for the chosen build-tools version, analogously
/// to the `android.jar` resolution.
pub fn android_d8_jar(
    d8_override: Option<&str>,
    d8_override_exists: bool,
    build_tools_version: Option<&str>,
    env_build_tools: Option<&str>,
    sdk: Option<&str>,
    names: &Vec<String>,
    has_d8: &Vec<bool>,
    resolved_jar_exists: bool,
) -> (r: Option<String>)
    requires
        names@.len() == has_d8@.len(),
    ensures
        opt_string_view(r) == android_d8_jar_spec(
            opt_str_view(d8_override),
            d8_override_exists,
            opt_str_view(build_tools_version),
            opt_str_view(env_build_tools),
            opt_str_view(sdk),
            names@,
            has_d8@,
            resolved_jar_exists,
        ),
{
    if let Some(p) = path_override(d8_override, d8_override_exists) {
        return Some(p);
    }
    let sd = match sdk {
        Some(x) => x,
        None => {
            return None;
        },
    };
    let version = match android_d8_jar_version(build_tools_version, env_build_tools, names, has_d8
    ) {
        Some(v) => v,
        None => {
            return None;
        },
    };
    if resolved_jar_exists {
        Some(android_d8_jar_path(sd, version.as_str()))
    } else {
        None
    }
}

} // verus!
