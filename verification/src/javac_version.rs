//! The compiler version detector: parsing the `javac -version` banner into
//! a normalized major-version number.  The banner's second whitespace token
//! carries the version; a `-` suffix (such as `-ea`) is dropped; the major
//! version is the first dot-component, unless that equals `1` — the legacy
//! `1.X` scheme of releases up to 8 — in which case it is the second.  Any
//! failure at any step yields `0`, which is never a real version.

use vstd::prelude::*;

use crate::text::find_char_from;
use crate::text::find_char_str;
use crate::text::parse_i32_or_zero;
use crate::text::parse_or_zero;
use crate::text::skip_nonspaces;
use crate::text::skip_nonspaces_str;
use crate::text::skip_spaces;
use crate::text::skip_spaces_str;

verus! {

/// The second whitespace-separated token of the banner; empty when the
/// banner has fewer than two tokens.
pub open spec fn second_token(s: Seq<char>) -> Seq<char> {
    let a = skip_spaces(s, 0);
    let b = skip_nonspaces(s, a);
    let c = skip_spaces(s, b);
    let d = skip_nonspaces(s, c);
    s.subrange(c, d)
}

/// The version string: the second token up to (and excluding) the first
/// `-`, which drops `-ea` and other prerelease suffixes.
pub open spec fn version_core(s: Seq<char>) -> Seq<char> {
    let t = second_token(s);
    t.subrange(0, find_char_from(t, 0, '-'))
}

/// The major version carried by a banner, or `0` when it cannot be read.
pub open spec fn javac_major_of(s: Seq<char>) -> int {
    let v = version_core(s);
    let p = find_char_from(v, 0, '.');
    let first = parse_or_zero(v.subrange(0, p));
    if first == 1 {
        if p == v.len() {
            0
        } else {
            let q = find_char_from(v, p + 1, '.');
            parse_or_zero(v.subrange(p + 1, q))
        }
    } else {
        first
    }
}

/// Parses a `javac -version` banner into the major version number, with
/// `0` denoting failure — never a real version.
pub fn parse_javac_version_output(version_output: &str) -> (r: i32)
    ensures
        r == javac_major_of(version_output@),
        r >= 0,
{
    let a = skip_spaces_str(version_output, 0);
    let b = skip_nonspaces_str(version_output, a);
    let c = skip_spaces_str(version_output, b);
    let d = skip_nonspaces_str(version_output, c);
    let token = version_output.substring_char(c, d);
    let e = find_char_str(token, 0, '-');
    let core = token.substring_char(0, e);
    let cn = core.unicode_len();
    let p = find_char_str(core, 0, '.');
    let first = parse_i32_or_zero(core.substring_char(0, p));
    if first == 1 {
        if p == cn {
            0
        } else {
            let q = find_char_str(core, p + 1, '.');
            parse_i32_or_zero(core.substring_char(p + 1, q))
        }
    } else {
        first
    }
}

/// Failure modes of version detection, kept distinct in error reporting: a
/// subprocess that ran but exited unsuccessfully, and a banner that ran
/// but could not be parsed.
#[derive(Debug)]
pub enum JavacVersionError {
    /// The version query exited unsuccessfully; carries the captured
    /// standard-error text.
    SubprocessFailed { stderr: String },
    /// The version query succeeded but its banner was unparseable; carries
    /// the raw banner text.
    UnparseableBanner { banner: String },
}

/// The banner to parse: standard output when nonempty, otherwise standard
/// error, since some historical releases write the banner there.
pub open spec fn banner_of(out: Seq<char>, err: Seq<char>) -> Seq<char> {
    if out.len() > 0 {
        out
    } else {
        err
    }
}

/// Turns the captured output of a `javac -version` run into the major
/// version, or into the error that tells a failed subprocess apart from an
/// unparseable banner.
pub fn javac_version_from_output(success: bool, stdout: &str, stderr: &str) -> (r: Result<
    u32,
    JavacVersionError,
>)
    ensures
        !success ==> (r matches Err(JavacVersionError::SubprocessFailed { stderr: t }) && t@
            == stderr@),
        success && javac_major_of(banner_of(stdout@, stderr@)) > 0 ==> (r matches Ok(v) && v
            == javac_major_of(banner_of(stdout@, stderr@))),
        success && javac_major_of(banner_of(stdout@, stderr@)) == 0 ==> (r matches Err(
            JavacVersionError::UnparseableBanner { banner: t },
        ) && t@ == banner_of(stdout@, stderr@)),
{
    if !success {
        return Err(JavacVersionError::SubprocessFailed { stderr: stderr.to_owned() });
    }
    let banner = if stdout.unicode_len() > 0 {
        stdout
    } else {
        stderr
    };
    let version = parse_javac_version_output(banner);
    if version > 0 {
        Ok(version as u32)
    } else {
        Err(JavacVersionError::UnparseableBanner { banner: banner.to_owned() })
    }
}

} // verus!
