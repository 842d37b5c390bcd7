//! Splitting one input line into tokens.
use vstd::prelude::*;

use crate::is::arithmetic;
use crate::lines::LineInfo;
use crate::text::{chars_of, push_char};
use crate::tokens::Tokens;

verus! {

/// Splits the characters of `v` at each space into unquoted tokens.
pub(crate) fn split_spaces(v: &Vec<char>) -> (r: Tokens)
    ensures
        crate::tokens::token_texts(r@) == crate::text::split_on(v@, ' '),
        crate::tokens::all_unquoted(r@),
{
    let n = v.len();
    let mut tokens: Tokens = Vec::new();
    let mut cur = String::new();
    let mut i: usize = 0;
    while i < n
        invariant
            n == v@.len(),
            i <= n,
            crate::tokens::token_texts(tokens@).push(cur@) == crate::text::split_on(v@.take(i as int), ' '),
            crate::tokens::all_unquoted(tokens@),
        decreases n - i,
    {
        let c = v[i];
        let ghost prefix = v@.take(i as int);
        assert(v@.take(i + 1).drop_last() =~= prefix);
        if c == ' ' {
            let piece = cur;
            let ghost old_tokens = tokens@;
            tokens.push((String::new(), piece));
            cur = String::new();
            assert(crate::tokens::token_texts(tokens@) =~= crate::tokens::token_texts(old_tokens).push(piece@));
            assert(crate::tokens::token_texts(tokens@).push(cur@) =~= crate::text::split_on(v@.take(i + 1), ' '));
        } else {
            let ghost old_cur = cur@;
            push_char(&mut cur, c);
            let ghost prev = crate::text::split_on(prefix, ' ');
            assert(prev.last() == old_cur);
            assert(crate::tokens::token_texts(tokens@).push(cur@) =~= prev.update(
                prev.len() - 1,
                prev.last().push(c),
            ));
        }
        i = i + 1;
    }
    let ghost old_tokens = tokens@;
    let last = cur;
    tokens.push((String::new(), last));
    assert(v@.take(n as int) =~= v@);
    assert(crate::tokens::token_texts(tokens@) =~= crate::tokens::token_texts(old_tokens).push(last@));
    tokens
}

/// Parses one input line. An arithmetic line gives a complete line whose
/// tokens are the line's pieces between single spaces, unquoted and in order
/// (two spaces in a row give an empty piece); any other line gives an
/// incomplete line with no tokens.
pub fn parses(line: &str) -> (r: LineInfo)
    ensures
        r.is_complete == crate::is::arithmetic_line(line@),
        crate::is::arithmetic_line(line@) ==> crate::tokens::token_texts(r.tokens@)
            == crate::text::split_on(line@, ' ') && crate::tokens::all_unquoted(r.tokens@),
        !crate::is::arithmetic_line(line@) ==> r.tokens@.len() == 0,
{
    let parsed = LineInfo::new();
    if arithmetic(line) {
        let v = chars_of(line);
        let result = split_spaces(&v);
        return LineInfo::create(result);
    }
    parsed
}

} // verus!
