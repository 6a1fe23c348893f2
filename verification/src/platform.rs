//! Platform-specific default-location discovery, modelled on plain values:
//! the default Android SDK directory for a host platform and home directory,
//! and the handling of JDK-home discovery output — last-line selection,
//! symlink-step resolution, and stripping `bin/java` to reach the home.
//!
//! The caller performs the actual environment, filesystem and subprocess
//! reads and hands their results in; every decision made on them is verified.

use vstd::prelude::*;

use crate::overrides::opt_str_view;
use crate::overrides::opt_string_view;
use crate::text::rfind_char;
use crate::text::trimmed;

verus! {

/// The host platforms the SDK default-location probe distinguishes.
#[derive(Clone, Copy, PartialEq, Eq, Structural, Debug)]
pub enum HostPlatform {
    MacOs,
    Linux,
    Windows,
    Unsupported,
}

/// The default Android SDK installation directory: a fixed location under
/// the user's home (or profile) directory, differing per platform; absence
/// when the home directory is unknown or the platform has no default.
pub open spec fn default_sdk_dir_spec(platform: HostPlatform, home: Option<Seq<char>>) -> Option<
    Seq<char>,
> {
    match home {
        None => None,
        Some(h) => match platform {
            HostPlatform::MacOs => Some(h + "/Library/Android/sdk"@),
            HostPlatform::Linux => Some(h + "/Android/Sdk"@),
            HostPlatform::Windows => Some(h + "/AppData/Local/Android/Sdk"@),
            HostPlatform::Unsupported => None,
        },
    }
}

/// Default SDK location for the given platform, relative to the given home
/// directory; `home` is the user's home directory (on Windows, the profile
/// directory reported by the native known-folder interface).
pub fn find_android_sdk(platform: HostPlatform, home: Option<&str>) -> (r: Option<String>)
    ensures
        opt_string_view(r) == default_sdk_dir_spec(platform, opt_str_view(home)),
{
    match home {
        None => None,
        Some(h) => match platform {
            HostPlatform::MacOs => Some(String::from_str(h).concat("/Library/Android/sdk")),
            HostPlatform::Linux => Some(String::from_str(h).concat("/Android/Sdk")),
            HostPlatform::Windows => Some(String::from_str(h).concat("/AppData/Local/Android/Sdk")),
            HostPlatform::Unsupported => None,
        },
    }
}

/// When the home directory is unknown, or the platform is one without a
/// default location, the probe yields absence — never an error.
pub proof fn lemma_probe_unavailable_is_absence(platform: HostPlatform, home: Option<Seq<char>>)
    ensures
        default_sdk_dir_spec(platform, None) is None,
        default_sdk_dir_spec(HostPlatform::Unsupported, home) is None,
{
}

/// The path named by JDK-discovery output: the last line when several were
/// returned, trimmed; absence when the output is empty or only whitespace.
pub open spec fn discovered_path_spec(s: Seq<char>) -> Option<Seq<char>> {
    let t = trimmed(s);
    if t.len() == 0 {
        None
    } else {
        let k = rfind_char(t, '\n');
        Some(trimmed(t.subrange(k + 1, t.len() as int)))
    }
}

/// Selects the path from the captured output of the JDK-home discovery
/// command.  Several lines mean several candidates: deterministically the
/// last one is used.  Empty output yields absence.
pub fn java_discovery_path(output: &str) -> (r: Option<String>)
    ensures
        opt_string_view(r) == discovered_path_spec(output@),
{
    let t = crate::text::trim_str(output);
    let n = t.unicode_len();
    if n == 0 {
        return None;
    }
    let line = match crate::text::rfind_char_str(t, '\n') {
        Some(k) => t.substring_char(k + 1, n),
        None => t,
    };
    proof {
        if rfind_char(t@, '\n') == -1 {
            assert(t@.subrange(0, t@.len() as int) =~= t@);
        }
    }
    Some(String::from_str(crate::text::trim_str(line)))
}

/// The parent directory of a `/`-joined path: everything before the last
/// separator; empty when there is no separator.
pub open spec fn parent_dir_spec(p: Seq<char>) -> Seq<char> {
    let k = rfind_char(p, '/');
    if k < 0 {
        Seq::empty()
    } else {
        p.subrange(0, k)
    }
}

pub fn parent_dir(p: &str) -> (r: String)
    ensures
        r@ == parent_dir_spec(p@),
{
    match crate::text::rfind_char_str(p, '/') {
        Some(k) => String::from_str(p.substring_char(0, k)),
        None => {
            let r = String::new();
            proof {
                assert(r@ =~= Seq::<char>::empty());
            }
            r
        },
    }
}

/// One step of symlink resolution: an absolute link target replaces the
/// path; a relative target is interpreted relative to the parent directory
/// of the link being followed.
pub open spec fn link_step_spec(link: Seq<char>, target: Seq<char>, absolute: bool) -> Seq<char> {
    if absolute {
        target
    } else if rfind_char(link, '/') < 0 {
        target
    } else {
        parent_dir_spec(link) + "/"@ + target
    }
}

pub fn resolve_link_step(link: &str, target: &str, target_is_absolute: bool) -> (r: String)
    ensures
        r@ == link_step_spec(link@, target@, target_is_absolute),
{
    if target_is_absolute {
        return String::from_str(target);
    }
    match crate::text::rfind_char_str(link, '/') {
        None => String::from_str(target),
        Some(k) => {
            let r = String::from_str(link.substring_char(0, k)).concat("/").concat(target);
            proof {
                assert(r@ =~= parent_dir_spec(link@) + "/"@ + target@);
            }
            r
        },
    }
}

/// The JDK home derived from a fully resolved discovered path: on macOS the
/// discovery command already reports the home directory; elsewhere the path
/// points at `bin/java`, and exactly the last two segments are stripped.
pub open spec fn java_home_from_path_spec(platform: HostPlatform, p: Seq<char>) -> Seq<char> {
    if platform is MacOs {
        p
    } else {
        parent_dir_spec(parent_dir_spec(p))
    }
}

pub fn java_home_from_discovered(platform: HostPlatform, path: &str) -> (r: String)
    ensures
        r@ == java_home_from_path_spec(platform, path@),
{
    match platform {
        HostPlatform::MacOs => String::from_str(path),
        _ => {
            let up = parent_dir(path);
            parent_dir(up.as_str())
        },
    }
}

} // verus!
