//! The platform-version string normalizer: builds the canonical
//! `android-<N>[-ext<M>]` string from a caller-supplied override and three
//! equally-ranked environment variables, merging an optional SDK-extension
//! variable under fixed precedence rules.

use vstd::prelude::*;

use crate::overrides::clone_opt_str;
use crate::overrides::env_override_value;
use crate::overrides::opt_str_view;
use crate::overrides::opt_string_view;
use crate::overrides::override_value_idx;
use crate::overrides::override_value_spec;
use crate::text::all_digits;
use crate::text::all_digits_str;
use crate::text::contains_seq;
use crate::text::starts_with_seq;
use crate::text::str_contains;
use crate::text::str_starts_with;

verus! {

/// The canonical platform prefix.
pub open spec fn android_prefix() -> Seq<char> {
    "android-"@
}

/// The marker announcing an SDK-extension suffix.
pub open spec fn ext_marker() -> Seq<char> {
    "-ext"@
}

/// The base: the first nonempty of the caller override and the three
/// equally-ranked environment variables, in that order.
pub open spec fn base_choice(
    ps: Option<Seq<char>>,
    p: Option<Seq<char>>,
    a: Option<Seq<char>>,
    s: Option<Seq<char>>,
) -> Option<Seq<char>> {
    if ps is Some && ps->0.len() > 0 {
        ps
    } else if p is Some && p->0.len() > 0 {
        p
    } else if a is Some && a->0.len() > 0 {
        a
    } else if s is Some && s->0.len() > 0 {
        s
    } else {
        None
    }
}

/// The base with the `android-` prefix ensured, idempotently.
pub open spec fn with_prefix(b: Seq<char>) -> Seq<char> {
    if starts_with_seq(b, android_prefix()) {
        b
    } else {
        android_prefix() + b
    }
}

/// The digit part of the extension variable: what remains after stripping a
/// leading `-` and a leading `ext` token, so that `4`, `ext4` and `-ext4`
/// all leave `4`.
pub open spec fn ext_digits(e: Seq<char>) -> Seq<char> {
    let e1 = if e.len() > 0 && e[0] == '-' {
        e.drop_first()
    } else {
        e
    };
    if starts_with_seq(e1, "ext"@) {
        e1.skip(3)
    } else {
        e1
    }
}

/// Whether the extension variable contributes a suffix: only when the base
/// does not already encode an extension, and the variable leaves a nonempty
/// digit string.
pub open spec fn ext_appended(b: Seq<char>, e: Option<Seq<char>>) -> bool {
    &&& !contains_seq(b, ext_marker())
    &&& e is Some
    &&& ext_digits(e->0).len() > 0
    &&& all_digits(ext_digits(e->0))
}

/// The normalized platform-version string, or absence when no base is
/// available.  A base already containing `-ext` is returned unchanged and
/// the extension variable is ignored entirely.
pub open spec fn platform_version_spec(
    ps: Option<Seq<char>>,
    p: Option<Seq<char>>,
    a: Option<Seq<char>>,
    s: Option<Seq<char>>,
    e: Option<Seq<char>>,
) -> Option<Seq<char>> {
    match base_choice(ps, p, a, s) {
        None => None,
        Some(b0) => {
            let b = with_prefix(b0);
            if ext_appended(b, e) {
                Some(b + ext_marker() + ext_digits(e->0))
            } else {
                Some(b)
            }
        },
    }
}

/// Supplying an explicit platform-string argument bypasses all three base
/// environment variables unconditionally: their values never influence the
/// result.
pub proof fn lemma_explicit_platform_bypasses_env(
    ps: Seq<char>,
    p: Option<Seq<char>>,
    a: Option<Seq<char>>,
    s: Option<Seq<char>>,
    e: Option<Seq<char>>,
)
    requires
        ps.len() > 0,
    ensures
        platform_version_spec(Some(ps), p, a, s, e) == platform_version_spec(
            Some(ps),
            None,
            None,
            None,
            e,
        ),
{
}

/// Precedence: a base that already encodes an extension is returned
/// unchanged, and the extension variable is ignored entirely, whatever it
/// holds.
pub proof fn lemma_existing_extension_wins(
    ps: Option<Seq<char>>,
    p: Option<Seq<char>>,
    a: Option<Seq<char>>,
    s: Option<Seq<char>>,
    e1: Option<Seq<char>>,
    e2: Option<Seq<char>>,
)
    requires
        base_choice(ps, p, a, s) is Some,
        contains_seq(with_prefix(base_choice(ps, p, a, s)->0), ext_marker()),
    ensures
        platform_version_spec(ps, p, a, s, e1) == platform_version_spec(ps, p, a, s, e2),
        platform_version_spec(ps, p, a, s, e1) == Some(with_prefix(base_choice(ps, p, a, s)->0)),
{
}

/// An input set to the empty string behaves identically to that input being
/// unset, for the override, each base variable, and the extension variable.
pub open spec fn canon_env(v: Option<Seq<char>>) -> Option<Seq<char>> {
    match v {
        Some(s) => if s.len() == 0 {
            None
        } else {
            Some(s)
        },
        None => None,
    }
}

pub proof fn lemma_empty_env_is_unset(
    ps: Option<Seq<char>>,
    p: Option<Seq<char>>,
    a: Option<Seq<char>>,
    s: Option<Seq<char>>,
    e: Option<Seq<char>>,
)
    ensures
        platform_version_spec(canon_env(ps), canon_env(p), canon_env(a), canon_env(s), canon_env(e))
            == platform_version_spec(ps, p, a, s, e),
{
    reveal_strlit("ext");
    assert(base_choice(canon_env(ps), canon_env(p), canon_env(a), canon_env(s)) == base_choice(
        ps,
        p,
        a,
        s,
    ));
    if e is Some && e->0.len() == 0 {
        assert(ext_digits(e->0) =~= e->0);
    }
}

/// The extension inputs `<digits>`, `ext<digits>` and `-ext<digits>` all
/// leave the same digit string, and so normalize identically.
pub proof fn lemma_extension_forms(d: Seq<char>)
    requires
        !(d.len() > 0 && d[0] == '-'),
        !starts_with_seq(d, "ext"@),
    ensures
        ext_digits(d) == d,
        ext_digits("ext"@ + d) == d,
        ext_digits("-ext"@ + d) == d,
{
    reveal_strlit("ext");
    reveal_strlit("-ext");
    let ed = "ext"@ + d;
    let med = "-ext"@ + d;
    assert(ed.subrange(0, 3) =~= "ext"@);
    assert(ed.skip(3) =~= d);
    assert(med[0] == '-');
    assert(med.drop_first() =~= ed);
}

pub proof fn lemma_extension_forms_normalize(
    ps: Option<Seq<char>>,
    p: Option<Seq<char>>,
    a: Option<Seq<char>>,
    s: Option<Seq<char>>,
    d: Seq<char>,
)
    requires
        !(d.len() > 0 && d[0] == '-'),
        !starts_with_seq(d, "ext"@),
    ensures
        platform_version_spec(ps, p, a, s, Some("ext"@ + d)) == platform_version_spec(
            ps,
            p,
            a,
            s,
            Some(d),
        ),
        platform_version_spec(ps, p, a, s, Some("-ext"@ + d)) == platform_version_spec(
            ps,
            p,
            a,
            s,
            Some(d),
        ),
{
    lemma_extension_forms(d);
}

/// The normalizer's output starts with exactly one `android-` prefix.  The
/// statement excludes bases that themselves smuggle in a second prefix:
/// those whose remainder after one optional `android-` starts with another
/// `android-`, or equals `android` right before an extension suffix is
/// appended.
pub proof fn lemma_prefix_exactly_once(
    ps: Option<Seq<char>>,
    p: Option<Seq<char>>,
    a: Option<Seq<char>>,
    s: Option<Seq<char>>,
    e: Option<Seq<char>>,
)
    requires
        base_choice(ps, p, a, s) is Some,
        ({
            let b = base_choice(ps, p, a, s)->0;
            let stripped = if starts_with_seq(b, android_prefix()) {
                b.skip(8)
            } else {
                b
            };
            &&& !starts_with_seq(stripped, android_prefix())
            &&& (stripped == "android"@ ==> !ext_appended(with_prefix(b), e))
        }),
    ensures
        platform_version_spec(ps, p, a, s, e) is Some,
        starts_with_seq(platform_version_spec(ps, p, a, s, e)->0, android_prefix()),
        !starts_with_seq(platform_version_spec(ps, p, a, s, e)->0.skip(8), android_prefix()),
{
    reveal_strlit("android-");
    reveal_strlit("android");
    reveal_strlit("-ext");
    let pre = android_prefix();
    let b = base_choice(ps, p, a, s)->0;
    let w = with_prefix(b);
    let stripped = if starts_with_seq(b, pre) {
        b.skip(8)
    } else {
        b
    };
    if starts_with_seq(b, pre) {
        assert(w == b);
        assert(w.subrange(0, 8) == pre);
        assert(w.skip(8) == stripped);
    } else {
        assert(w == pre + b);
        assert(w.subrange(0, 8) =~= pre);
        assert(w.skip(8) =~= stripped);
    }
    assert(starts_with_seq(w, pre));
    let r = platform_version_spec(ps, p, a, s, e)->0;
    if ext_appended(w, e) {
        let d = ext_digits(e->0);
        assert(r == w + ext_marker() + d);
        assert(r.subrange(0, 8) =~= w.subrange(0, 8));
        assert(starts_with_seq(r, pre));
        let t = r.skip(8);
        assert(t =~= stripped + ext_marker() + d);
        if starts_with_seq(t, pre) {
            if stripped.len() >= 8 {
                assert(stripped.subrange(0, 8) =~= t.subrange(0, 8));
                assert(false);
            } else if stripped.len() == 7 {
                assert forall|i: int| 0 <= i < 8 implies t[i] == pre[i] by {
                    assert(t.subrange(0, 8)[i] == pre[i]);
                }
                assert(forall|i: int| 0 <= i < 7 ==> t[i] == stripped[i]);
                assert(stripped =~= "android"@);
                assert(false);
            } else {
                assert(t[stripped.len() as int] == '-');
                assert(pre[stripped.len() as int] != '-');
                assert(false);
            }
        }
    } else {
        assert(r == w);
    }
}

/// Builds the platform-version string (also called API level or SDK
/// version) targeted for compilation, from a caller-supplied override and
/// the values of the three base environment variables and the extension
/// variable.  Absence when override and all three variables are unset or
/// empty: no filesystem fallback happens at this layer.
pub fn env_android_platform_api_level(
    platform_string: Option<&str>,
    platform: Option<&str>,
    api_level: Option<&str>,
    sdk_version: Option<&str>,
    sdk_extension: Option<&str>,
) -> (r: Option<String>)
    ensures
        opt_string_view(r) == platform_version_spec(
            opt_str_view(platform_string),
            opt_str_view(platform),
            opt_str_view(api_level),
            opt_str_view(sdk_version),
            opt_str_view(sdk_extension),
        ),
{
    let mut candidates: Vec<Option<String>> = Vec::new();
    candidates.push(clone_opt_str(platform_string));
    candidates.push(clone_opt_str(platform));
    candidates.push(clone_opt_str(api_level));
    candidates.push(clone_opt_str(sdk_version));
    proof {
        reveal_with_fuel(override_value_idx, 6);
        assert(override_value_spec(candidates@) == base_choice(
            opt_str_view(platform_string),
            opt_str_view(platform),
            opt_str_view(api_level),
            opt_str_view(sdk_version),
        ));
    }
    let base = match env_override_value(&candidates) {
        Some(b) => b,
        None => {
            return None;
        },
    };
    let prefixed = if str_starts_with(base.as_str(), "android-") {
        base
    } else {
        String::from_str("android-").concat(base.as_str())
    };
    if str_contains(prefixed.as_str(), "-ext") {
        return Some(prefixed);
    }
    match sdk_extension {
        Some(ev) => {
            let ghost e0 = ev@;
            let mut ex: &str = ev;
            if ex.unicode_len() > 0 && ex.get_char(0) == '-' {
                let n = ex.unicode_len();
                ex = ex.substring_char(1, n);
                proof {
                    assert(ex@ =~= e0.drop_first());
                }
            }
            let ghost e1 = ex@;
            proof {
                reveal_strlit("ext");
            }
            if str_starts_with(ex, "ext") {
                let n = ex.unicode_len();
                ex = ex.substring_char(3, n);
                proof {
                    assert(ex@ =~= e1.skip(3));
                }
            }
            proof {
                assert(ex@ == ext_digits(e0));
            }
            if ex.unicode_len() > 0 && all_digits_str(ex) {
                let r = prefixed.concat("-ext").concat(ex);
                proof {
                    assert(r@ =~= with_prefix(base_choice(
                        opt_str_view(platform_string),
                        opt_str_view(platform),
                        opt_str_view(api_level),
                        opt_str_view(sdk_version),
                    )->0) + ext_marker() + ext_digits(e0));
                }
                Some(r)
            } else {
                Some(prefixed)
            }
        },
        None => Some(prefixed),
    }
}

} // verus!
