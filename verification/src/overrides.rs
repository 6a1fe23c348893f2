//! The environment-override resolver: given the values of a prioritized list
//! of environment variables that denote one logical resource, the first value
//! that is set and nonempty wins — and for path resources it must also point
//! at an existing filesystem entry.  A variable set to the empty string is
//! treated exactly like an unset one.

use vstd::prelude::*;

verus! {

/// The view of an optional borrowed string.
pub open spec fn opt_str_view(o: Option<&str>) -> Option<Seq<char>> {
    match o {
        Some(s) => Some(s@),
        None => None,
    }
}

/// The view of an optional owned string.
pub open spec fn opt_string_view(o: Option<String>) -> Option<Seq<char>> {
    match o {
        Some(s) => Some(s@),
        None => None,
    }
}

/// Index of the first entry that is set and nonempty; the length when none is.
pub open spec fn override_value_idx(vs: Seq<Option<String>>, i: int) -> int
    decreases vs.len() - i,
    when 0 <= i
{
    if i >= vs.len() {
        i
    } else if vs[i] is Some && vs[i]->0@.len() > 0 {
        i
    } else {
        override_value_idx(vs, i + 1)
    }
}

/// The first value that is set and nonempty, if any.
pub open spec fn override_value_spec(vs: Seq<Option<String>>) -> Option<Seq<char>> {
    let k = override_value_idx(vs, 0);
    if k < vs.len() {
        Some(vs[k]->0@)
    } else {
        None
    }
}

proof fn lemma_override_value_idx_bounds(vs: Seq<Option<String>>, i: int)
    requires
        0 <= i <= vs.len(),
    ensures
        i <= override_value_idx(vs, i) <= vs.len(),
    decreases vs.len() - i,
{
    if i < vs.len() && !(vs[i] is Some && vs[i]->0@.len() > 0) {
        lemma_override_value_idx_bounds(vs, i + 1);
    }
}

/// Returns the value of the first variable that is set and nonempty; the
/// remaining entries are ignored even if set.
pub fn env_override_value(values: &Vec<Option<String>>) -> (r: Option<String>)
    ensures
        opt_string_view(r) == override_value_spec(values@),
{
    let n = values.len();
    let mut i: usize = 0;
    while i < n
        invariant
            i <= n,
            n == values@.len(),
            override_value_idx(values@, 0) == override_value_idx(values@, i as int),
        decreases n - i,
    {
        match &values[i] {
            Some(s) => {
                if s.as_str().unicode_len() > 0 {
                    proof {
                        lemma_override_value_idx_bounds(values@, 0);
                    }
                    return Some(s.clone());
                }
            },
            None => {},
        }
        i = i + 1;
    }
    None
}

/// Index of the first entry that is set, nonempty and existing.
pub open spec fn override_path_idx(vs: Seq<Option<String>>, ex: Seq<bool>, i: int) -> int
    decreases vs.len() - i,
    when 0 <= i
{
    if i >= vs.len() {
        i
    } else if vs[i] is Some && vs[i]->0@.len() > 0 && (0 <= i < ex.len() && ex[i]) {
        i
    } else {
        override_path_idx(vs, ex, i + 1)
    }
}

/// The first value that is set, nonempty, and points at an existing
/// filesystem entry, if any.
pub open spec fn override_path_vec_spec(vs: Seq<Option<String>>, ex: Seq<bool>) -> Option<
    Seq<char>,
> {
    let k = override_path_idx(vs, ex, 0);
    if k < vs.len() {
        Some(vs[k]->0@)
    } else {
        None
    }
}

proof fn lemma_override_path_idx_bounds(vs: Seq<Option<String>>, ex: Seq<bool>, i: int)
    requires
        0 <= i <= vs.len(),
    ensures
        i <= override_path_idx(vs, ex, i) <= vs.len(),
    decreases vs.len() - i,
{
    if i < vs.len() && !(vs[i] is Some && vs[i]->0@.len() > 0 && (0 <= i < ex.len() && ex[i])) {
        lemma_override_path_idx_bounds(vs, ex, i + 1);
    }
}

/// Returns the value of the first variable that is set, nonempty, and whose
/// path exists; `exists[i]` reports whether the path in `values[i]` exists.
pub fn env_override_path(values: &Vec<Option<String>>, exists: &Vec<bool>) -> (r: Option<String>)
    requires
        values@.len() == exists@.len(),
    ensures
        opt_string_view(r) == override_path_vec_spec(values@, exists@),
{
    let n = values.len();
    let mut i: usize = 0;
    while i < n
        invariant
            i <= n,
            n == values@.len(),
            values@.len() == exists@.len(),
            override_path_idx(values@, exists@, 0) == override_path_idx(
                values@,
                exists@,
                i as int,
            ),
        decreases n - i,
    {
        match &values[i] {
            Some(s) => {
                if s.as_str().unicode_len() > 0 && exists[i] {
                    proof {
                        lemma_override_path_idx_bounds(values@, exists@, 0);
                    }
                    return Some(s.clone());
                }
            },
            None => {},
        }
        i = i + 1;
    }
    None
}

/// One optional path value under the override rule: kept only when set,
/// nonempty, and existing.
pub open spec fn override_path_spec(v: Option<Seq<char>>, exists: bool) -> Option<Seq<char>> {
    match v {
        Some(s) => if s.len() > 0 && exists {
            Some(s)
        } else {
            None
        },
        None => None,
    }
}

/// Clones an optional borrowed string into an owned one.
pub fn clone_opt_str(o: Option<&str>) -> (r: Option<String>)
    ensures
        opt_string_view(r) == opt_str_view(o),
{
    match o {
        Some(s) => Some(s.to_owned()),
        None => None,
    }
}

/// A single path override: the value survives only when it is set, nonempty,
/// and points at an existing filesystem entry.
pub fn path_override(value: Option<&str>, exists: bool) -> (r: Option<String>)
    ensures
        opt_string_view(r) == override_path_spec(opt_str_view(value), exists),
{
    match value {
        Some(s) => {
            if s.unicode_len() > 0 && exists {
                Some(s.to_owned())
            } else {
                None
            }
        },
        None => None,
    }
}

/// An entry set to the empty string, rewritten to an unset one.
pub open spec fn canon_unset(v: Option<String>) -> Option<String> {
    match v {
        Some(s) => if s@.len() == 0 {
            None
        } else {
            Some(s)
        },
        None => None,
    }
}

proof fn lemma_canon_unset_idx(vs: Seq<Option<String>>, i: int)
    requires
        0 <= i,
    ensures
        override_value_idx(vs.map_values(|v: Option<String>| canon_unset(v)), i)
            == override_value_idx(vs, i),
    decreases vs.len() - i,
{
    let cs = vs.map_values(|v: Option<String>| canon_unset(v));
    if i < vs.len() && !(vs[i] is Some && vs[i]->0@.len() > 0) {
        lemma_canon_unset_idx(vs, i + 1);
    }
}

proof fn lemma_override_value_idx_found(vs: Seq<Option<String>>, i: int)
    requires
        0 <= i,
    ensures
        override_value_idx(vs, i) < vs.len() ==> {
            let k = override_value_idx(vs, i);
            vs[k] is Some && vs[k]->0@.len() > 0
        },
    decreases vs.len() - i,
{
    if i < vs.len() && !(vs[i] is Some && vs[i]->0@.len() > 0) {
        lemma_override_value_idx_found(vs, i + 1);
    }
}

/// A variable set to the empty string behaves identically to the variable
/// being unset: rewriting every empty entry to an unset one leaves the
/// resolved override unchanged.
pub proof fn lemma_empty_value_is_unset(vs: Seq<Option<String>>)
    ensures
        override_value_spec(vs.map_values(|v: Option<String>| canon_unset(v)))
            == override_value_spec(vs),
{
    let cs = vs.map_values(|v: Option<String>| canon_unset(v));
    lemma_canon_unset_idx(vs, 0);
    lemma_override_value_idx_found(vs, 0);
    lemma_override_value_idx_bounds(vs, 0);
    let k = override_value_idx(vs, 0);
    if k < vs.len() {
        assert(cs[k] == canon_unset(vs[k]));
    }
}

proof fn lemma_canon_unset_path_idx(vs: Seq<Option<String>>, ex: Seq<bool>, i: int)
    requires
        0 <= i,
    ensures
        override_path_idx(vs.map_values(|v: Option<String>| canon_unset(v)), ex, i)
            == override_path_idx(vs, ex, i),
    decreases vs.len() - i,
{
    let cs = vs.map_values(|v: Option<String>| canon_unset(v));
    if i < vs.len() && !(vs[i] is Some && vs[i]->0@.len() > 0 && (0 <= i < ex.len() && ex[i])) {
        lemma_canon_unset_path_idx(vs, ex, i + 1);
    }
}

proof fn lemma_override_path_idx_found(vs: Seq<Option<String>>, ex: Seq<bool>, i: int)
    requires
        0 <= i,
    ensures
        override_path_idx(vs, ex, i) < vs.len() ==> {
            let k = override_path_idx(vs, ex, i);
            vs[k] is Some && vs[k]->0@.len() > 0
        },
    decreases vs.len() - i,
{
    if i < vs.len() && !(vs[i] is Some && vs[i]->0@.len() > 0 && (0 <= i < ex.len() && ex[i])) {
        lemma_override_path_idx_found(vs, ex, i + 1);
    }
}

/// The same statement for path overrides: empty entries never win, whatever
/// their existence probe said.
pub proof fn lemma_empty_path_is_unset(vs: Seq<Option<String>>, ex: Seq<bool>)
    ensures
        override_path_vec_spec(vs.map_values(|v: Option<String>| canon_unset(v)), ex)
            == override_path_vec_spec(vs, ex),
{
    let cs = vs.map_values(|v: Option<String>| canon_unset(v));
    lemma_canon_unset_path_idx(vs, ex, 0);
    lemma_override_path_idx_found(vs, ex, 0);
    lemma_override_path_idx_bounds(vs, ex, 0);
    let k = override_path_idx(vs, ex, 0);
    if k < vs.len() {
        assert(cs[k] == canon_unset(vs[k]));
    }
}

} // verus!
