//! Reading a command line as a pipeline: its commands between `|`, each a
//! list of words between spaces.
use vstd::prelude::*;

use crate::replies::Reply;
use crate::text::{chars_of, string_of};

verus! {

/// The texts of a sequence of character vectors.
pub open spec fn char_views(v: Seq<Vec<char>>) -> Seq<Seq<char>> {
    v.map_values(|p: Vec<char>| p@)
}

/// The pieces of `ws` that are not empty, in order.
pub open spec fn nonempty(ws: Seq<Seq<char>>) -> Seq<Seq<char>>
    decreases ws.len(),
{
    if ws.len() == 0 {
        ws
    } else {
        let prev = nonempty(ws.drop_last());
        if ws.last().len() > 0 {
            prev.push(ws.last())
        } else {
            prev
        }
    }
}

/// The words of a command: its pieces between spaces that are not empty.
pub open spec fn words_of(s: Seq<char>) -> Seq<Seq<char>> {
    nonempty(crate::text::split_on(s, ' '))
}

/// The words of each of the commands `stages`.
pub open spec fn stage_words(stages: Seq<Seq<char>>) -> Seq<Seq<Seq<char>>> {
    stages.map_values(|st: Seq<char>| words_of(st))
}

/// The pipeline a line asks for: the words of each of its commands between
/// `|`, in order. A blank line asks for none; `None` when some command of
/// the line has no words (a `|` with nothing on one side).
pub open spec fn plan_of(line: Seq<char>) -> Option<Seq<Seq<Seq<char>>>> {
    let stages = crate::text::split_on(line, '|');
    if stages.len() == 1 && words_of(stages[0]).len() == 0 {
        Some(Seq::empty())
    } else if forall|i: int| 0 <= i < stages.len() ==> #[trigger] words_of(stages[i]).len() > 0 {
        Some(stage_words(stages))
    } else {
        None
    }
}

/// The texts of the words of each command of a planned pipeline.
pub open spec fn plan_views(p: Seq<Vec<String>>) -> Seq<Seq<Seq<char>>> {
    p.map_values(|st: Vec<String>| crate::text::string_views(st@))
}

/// The pieces of `v` between occurrences of `sep`, empty pieces included.
pub fn split_chars(v: &Vec<char>, sep: char) -> (r: Vec<Vec<char>>)
    ensures
        char_views(r@) == crate::text::split_on(v@, sep),
{
    let n = v.len();
    let mut pieces: Vec<Vec<char>> = Vec::new();
    let mut cur: Vec<char> = Vec::new();
    let mut i: usize = 0;
    while i < n
        invariant
            n == v@.len(),
            i <= n,
            char_views(pieces@).push(cur@) == crate::text::split_on(v@.take(i as int), sep),
        decreases n - i,
    {
        let c = v[i];
        let ghost prefix = v@.take(i as int);
        assert(v@.take(i + 1).drop_last() =~= prefix);
        if c == sep {
            let piece = cur;
            let ghost old_pieces = pieces@;
            pieces.push(piece);
            cur = Vec::new();
            assert(char_views(pieces@) =~= char_views(old_pieces).push(piece@));
            assert(char_views(pieces@).push(cur@) =~= crate::text::split_on(
                v@.take(i + 1),
                sep,
            ));
        } else {
            let ghost old_cur = cur@;
            cur.push(c);
            let ghost prev = crate::text::split_on(prefix, sep);
            assert(prev.last() == old_cur);
            assert(char_views(pieces@).push(cur@) =~= prev.update(
                prev.len() - 1,
                prev.last().push(c),
            ));
        }
        i = i + 1;
    }
    let ghost old_pieces = pieces@;
    let last = cur;
    pieces.push(last);
    assert(v@.take(n as int) =~= v@);
    assert(char_views(pieces@) =~= char_views(old_pieces).push(last@));
    pieces
}

/// The words of the command `stage`: its pieces between spaces that are not
/// empty, in order.
pub fn words(stage: &Vec<char>) -> (r: Vec<String>)
    ensures
        crate::text::string_views(r@) == words_of(stage@),
{
    let pieces = split_chars(stage, ' ');
    let ghost views = char_views(pieces@);
    let mut out: Vec<String> = Vec::new();
    let mut j: usize = 0;
    while j < pieces.len()
        invariant
            views == char_views(pieces@),
            j <= pieces@.len(),
            crate::text::string_views(out@) == nonempty(views.take(j as int)),
        decreases pieces@.len() - j,
    {
        assert(views.take(j + 1).drop_last() =~= views.take(j as int));
        assert(views.take(j + 1).last() == pieces@[j as int]@);
        if pieces[j].len() > 0 {
            let w = string_of(pieces[j].as_slice());
            let ghost before = out@;
            out.push(w);
            assert(crate::text::string_views(out@) =~= crate::text::string_views(before).push(
                w@,
            ));
        }
        j = j + 1;
    }
    assert(views.take(pieces@.len() as int) =~= views);
    out
}

/// Reads `line` as a pipeline: the words of each of its commands between
/// `|`, in order; no command for a blank line; `None` when some command of
/// the line has no words.
pub fn plan(line: &str) -> (r: Option<Vec<Vec<String>>>)
    ensures
        r is None <==> plan_of(line@) is None,
        r matches Some(p) ==> plan_of(line@) == Some(plan_views(p@)),
{
    let chars = chars_of(line);
    let stages = split_chars(&chars, '|');
    let ghost views = char_views(stages@);
    assert(views == crate::text::split_on(line@, '|'));
    let n = stages.len();
    if n == 1 {
        let w = words(&stages[0]);
        if w.len() == 0 {
            let empty: Vec<Vec<String>> = Vec::new();
            assert(plan_views(empty@) =~= Seq::<Seq<Seq<char>>>::empty());
            return Some(empty);
        }
    }
    let mut out: Vec<Vec<String>> = Vec::new();
    let mut k: usize = 0;
    while k < n
        invariant
            n == stages@.len(),
            views == char_views(stages@),
            k <= n,
            views == crate::text::split_on(line@, '|'),
            n == 1 ==> words_of(views[0]).len() > 0,
            forall|i: int| 0 <= i < k ==> #[trigger] words_of(views[i]).len() > 0,
            plan_views(out@) == stage_words(views.take(k as int)),
        decreases n - k,
    {
        let w = words(&stages[k]);
        assert(views[k as int] == stages@[k as int]@);
        if w.len() == 0 {
            assert(words_of(views[k as int]).len() == 0);
            return None;
        }
        let ghost before = out@;
        out.push(w);
        assert(plan_views(out@) =~= plan_views(before).push(crate::text::string_views(w@)));
        assert(stage_words(views.take(k + 1)) =~= stage_words(views.take(k as int)).push(
            words_of(views[k as int]),
        ));
        k = k + 1;
    }
    assert(views.take(n as int) =~= views);
    Some(out)
}

/// A text without `sep` is one piece.
proof fn lemma_split_without_sep(s: Seq<char>, sep: char)
    requires
        !s.contains(sep),
    ensures
        crate::text::split_on(s, sep) == seq![s],
    decreases s.len(),
{
    if s.len() > 0 {
        let t = s.drop_last();
        assert(!t.contains(sep)) by {
            if t.contains(sep) {
                let j = choose|j: int| 0 <= j < t.len() && t[j] == sep;
                assert(s[j] == sep);
            }
        }
        lemma_split_without_sep(t, sep);
        assert(s.last() != sep) by {
            assert(s[s.len() - 1] == s.last());
        }
        assert(t.push(s.last()) =~= s);
        assert(seq![t].update(0, t.push(s.last())) =~= seq![s]);
    } else {
        assert(s =~= Seq::<char>::empty());
    }
}

/// A line without `|` is a single command: running it starts one command
/// whose words are the tokens `parse_line` gives that are not empty, or
/// starts nothing when the line is blank.
pub proof fn lemma_single_command(line: Seq<char>)
    requires
        !line.contains('|'),
    ensures
        nonempty(crate::text::split_on(line, ' ')).len() > 0 ==> plan_of(line) == Some(
            seq![nonempty(crate::text::split_on(line, ' '))],
        ),
        nonempty(crate::text::split_on(line, ' ')).len() == 0 ==> plan_of(line) == Some(
            Seq::<Seq<Seq<char>>>::empty(),
        ),
{
    lemma_split_without_sep(line, '|');
    let stages = crate::text::split_on(line, '|');
    assert(stages[0] == line);
    if words_of(line).len() > 0 {
        assert(forall|i: int| 0 <= i < stages.len() ==> #[trigger] words_of(stages[i]).len() > 0)
            by {
            assert forall|i: int| 0 <= i < stages.len() implies #[trigger] words_of(
                stages[i],
            ).len() > 0 by {
                assert(i == 0);
            }
        }
        assert(stage_words(stages) =~= seq![words_of(line)]);
    }
}

/// The reply of a pipeline that ran: the exit status of its last command,
/// and the output it gathered.
pub fn finish(statuses: &Vec<i32>, stdout: String, stderr: String) -> (r: Reply)
    requires
        statuses@.len() > 0,
    ensures
        r.gid == 0,
        r.status == statuses@.last(),
        r.stdout@ == stdout@,
        r.stderr@ == stderr@,
{
    let last = statuses[statuses.len() - 1];
    Reply { gid: 0, status: last, stdout, stderr }
}

} // verus!
