//! The result of parsing one input line.
use vstd::prelude::*;

use crate::tokens::Tokens;

verus! {

/// A parsed input line: its tokens, and whether the line is complete (an
/// incomplete line, such as `echo 'foo`, asks for more input).
#[derive(Debug)]
pub struct LineInfo {
    pub tokens: Tokens,
    pub is_complete: bool,
}

impl LineInfo {
    /// An incomplete line with no tokens.
    pub fn new() -> (r: Self)
        ensures
            r.tokens@.len() == 0,
            !r.is_complete,
    {
        LineInfo { tokens: Vec::new(), is_complete: false }
    }

    /// A complete line with the given tokens.
    pub fn create(tokens: Tokens) -> (r: Self)
        ensures
            r.tokens@ == tokens@,
            r.is_complete,
    {
        LineInfo { tokens, is_complete: true }
    }
}

} // verus!
