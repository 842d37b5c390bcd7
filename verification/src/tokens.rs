//! Tokens of a parsed command line.
use vstd::prelude::*;

verus! {

/// One token: the quote it was written with (empty when unquoted) and its text.
pub type Token = (String, String);

/// The tokens of a line, in order.
pub type Tokens = Vec<Token>;

/// The texts of a sequence of tokens.
pub open spec fn token_texts(ts: Seq<Token>) -> Seq<Seq<char>> {
    ts.map_values(|t: Token| t.1@)
}

/// Whether no token of the sequence carries a quote.
pub open spec fn all_unquoted(ts: Seq<Token>) -> bool {
    forall|i: int| 0 <= i < ts.len() ==> (#[trigger] ts[i]).0@ == Seq::<char>::empty()
}

} // verus!
