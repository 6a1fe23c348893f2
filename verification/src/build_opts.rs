//! Debug-information selection for a compiler invocation: which `-g` flags
//! a chosen `DebugInfo` turns into.

use vstd::prelude::*;

verus! {

/// Debug information to include in the output of a compiler build.  The
/// default is for everything to be included.
#[derive(Clone, Copy, PartialEq, Eq, Structural, Debug)]
pub struct DebugInfo {
    pub line_numbers: bool,
    pub variables: bool,
    pub source_files: bool,
}

impl Default for DebugInfo {
    /// All debug information included.
    fn default() -> (r: Self)
        ensures
            r.line_numbers && r.variables && r.source_files,
    {
        DebugInfo { line_numbers: true, variables: true, source_files: true }
    }
}

/// The `-g` flags a `DebugInfo` selection turns into: one flag per enabled
/// kind, and `-g:none` when all three are disabled.
pub open spec fn debug_args_spec(d: DebugInfo) -> Seq<Seq<char>> {
    let s0: Seq<Seq<char>> = if d.line_numbers {
        seq!["-g:lines"@]
    } else {
        Seq::empty()
    };
    let s1: Seq<Seq<char>> = if d.variables {
        s0 + seq!["-g:vars"@]
    } else {
        s0
    };
    let s2: Seq<Seq<char>> = if d.source_files {
        s1 + seq!["-g:source"@]
    } else {
        s1
    };
    if !d.line_numbers && !d.variables && !d.source_files {
        s2 + seq!["-g:none"@]
    } else {
        s2
    }
}

impl DebugInfo {
    /// The compiler arguments this selection contributes.
    pub fn debug_args(&self) -> (r: Vec<String>)
        ensures
            r.deep_view() == debug_args_spec(*self),
    {
        let mut r: Vec<String> = Vec::new();
        if self.line_numbers {
            r.push(String::from_str("-g:lines"));
        }
        if self.variables {
            r.push(String::from_str("-g:vars"));
        }
        if self.source_files {
            r.push(String::from_str("-g:source"));
        }
        if !self.line_numbers && !self.variables && !self.source_files {
            r.push(String::from_str("-g:none"));
        }
        proof {
            assert(r.deep_view() =~= debug_args_spec(*self));
        }
        r
    }
}

} // verus!
