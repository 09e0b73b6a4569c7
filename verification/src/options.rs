//! The options under which a pattern is compiled.

use vstd::prelude::*;

verus! {

/// The default limit on the size of a compiled program: 10 MiB.
pub const DEFAULT_SIZE_LIMIT: usize = 10485760;

/// The default limit on the size of the matching cache: 2 MiB.
pub const DEFAULT_DFA_SIZE_LIMIT: usize = 2097152;

/// The flags and limits handed to the compiler together with a source.
#[derive(Clone, Copy, Debug, PartialEq, Eq, Structural)]
pub struct CompileOptions {
    /// The `i` flag.
    pub case_insensitive: bool,
    /// The `m` flag.
    pub multi_line: bool,
    /// The `s` flag.
    pub dot_matches_new_line: bool,
    /// The `U` flag.
    pub swap_greed: bool,
    /// The `x` flag.
    pub ignore_whitespace: bool,
    /// The `u` flag.
    pub unicode: bool,
    /// The approximate limit, in bytes, on one compiled program.
    pub size_limit: usize,
    /// The approximate limit, in bytes, on the matching cache of one thread.
    pub dfa_size_limit: usize,
}

impl CompileOptions {
    /// The options that apply where none are chosen: every flag off but
    /// `unicode`, and the two default limits.
    pub open spec fn standard() -> CompileOptions {
        CompileOptions {
            case_insensitive: false,
            multi_line: false,
            dot_matches_new_line: false,
            swap_greed: false,
            ignore_whitespace: false,
            unicode: true,
            size_limit: DEFAULT_SIZE_LIMIT,
            dfa_size_limit: DEFAULT_DFA_SIZE_LIMIT,
        }
    }
}

impl Default for CompileOptions {
    fn default() -> (r: CompileOptions)
        ensures
            r == CompileOptions::standard(),
    {
        CompileOptions {
            case_insensitive: false,
            multi_line: false,
            dot_matches_new_line: false,
            swap_greed: false,
            ignore_whitespace: false,
            unicode: true,
            size_limit: DEFAULT_SIZE_LIMIT,
            dfa_size_limit: DEFAULT_DFA_SIZE_LIMIT,
        }
    }
}

} // verus!
