//! The latest-version scanner: among the immediate subdirectories of a base
//! directory, those containing a required marker file qualify, and the
//! maximum qualifying name by plain lexicographic ordering is selected.
//! This is deliberately not semantic-version ordering: the name `"9"`
//! compares greater than `"10"`, and that behavior is part of the contract.
//!
//! The caller lists the directory and probes the marker; the selection made
//! on those results is verified.

use vstd::prelude::*;

use crate::overrides::opt_string_view;
use crate::text::lemma_lex_le_total;
use crate::text::lemma_lex_le_trans;
use crate::text::lex_le;
use crate::text::str_le;

verus! {

/// The lexicographically maximal qualifying name among the first `i`
/// entries; a later entry of equal name supersedes an earlier one.
pub open spec fn latest_spec_at(names: Seq<String>, marks: Seq<bool>, i: int) -> Option<Seq<char>>
    decreases i,
{
    if i <= 0 || i > names.len() || names.len() != marks.len() {
        None
    } else {
        let prev = latest_spec_at(names, marks, i - 1);
        if marks[i - 1] {
            match prev {
                None => Some(names[i - 1]@),
                Some(b) => if lex_le(b, names[i - 1]@) {
                    Some(names[i - 1]@)
                } else {
                    Some(b)
                },
            }
        } else {
            prev
        }
    }
}

/// The selected latest version: the lexicographic maximum of the qualifying
/// names, or absence when none qualifies.
pub open spec fn latest_spec(names: Seq<String>, marks: Seq<bool>) -> Option<Seq<char>> {
    latest_spec_at(names, marks, names.len() as int)
}

/// The selection is absent exactly when nothing qualifies, is itself a
/// qualifying name, and no qualifying name is lexicographically greater.
pub proof fn lemma_latest_is_max(names: Seq<String>, marks: Seq<bool>, i: int)
    requires
        names.len() == marks.len(),
        0 <= i <= names.len(),
    ensures
        latest_spec_at(names, marks, i) is None <==> (forall|j: int| 0 <= j < i ==> !marks[j]),
        latest_spec_at(names, marks, i) is Some ==> exists|j: int|
            0 <= j < i && marks[j] && names[j]@ == latest_spec_at(names, marks, i)->0,
        forall|j: int|
            0 <= j < i && marks[j] ==> lex_le(names[j]@, latest_spec_at(names, marks, i)->0),
    decreases i,
{
    if i > 0 {
        lemma_latest_is_max(names, marks, i - 1);
        let prev = latest_spec_at(names, marks, i - 1);
        let cur = latest_spec_at(names, marks, i);
        if marks[i - 1] {
            lemma_lex_le_total(names[i - 1]@, names[i - 1]@, 0);
            match prev {
                None => {},
                Some(b) => {
                    lemma_lex_le_total(b, names[i - 1]@, 0);
                    assert forall|j: int| 0 <= j < i && marks[j] implies lex_le(
                        names[j]@,
                        cur->0,
                    ) by {
                        if j < i - 1 {
                            lemma_lex_le_trans(names[j]@, b, cur->0, 0);
                        }
                    }
                },
            }
        }
    }
}

/// Selects the maximum qualifying subdirectory name by plain lexicographic
/// ordering; `has_marker[i]` reports whether `names[i]` contains the
/// required marker file.  Absence when no entry qualifies.
pub fn find_latest_version(names: &Vec<String>, has_marker: &Vec<bool>) -> (r: Option<String>)
    requires
        names@.len() == has_marker@.len(),
    ensures
        opt_string_view(r) == latest_spec(names@, has_marker@),
        r is None <==> (forall|j: int| 0 <= j < names@.len() ==> !has_marker@[j]),
        r is Some ==> exists|j: int|
            0 <= j < names@.len() && has_marker@[j] && names@[j]@ == r->0@,
        forall|j: int| 0 <= j < names@.len() && has_marker@[j] ==> lex_le(names@[j]@, r->0@),
{
    let n = names.len();
    let mut best: Option<String> = None;
    let mut i: usize = 0;
    while i < n
        invariant
            i <= n,
            n == names@.len(),
            names@.len() == has_marker@.len(),
            opt_string_view(best) == latest_spec_at(names@, has_marker@, i as int),
        decreases n - i,
    {
        if has_marker[i] {
            best = match best {
                None => Some(names[i].clone()),
                Some(b) => {
                    if str_le(b.as_str(), names[i].as_str()) {
                        Some(names[i].clone())
                    } else {
                        Some(b)
                    }
                },
            };
        }
        i = i + 1;
    }
    proof {
        lemma_latest_is_max(names@, has_marker@, n as int);
    }
    best
}

} // verus!
