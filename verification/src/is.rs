//! Classification of shell input lines.
use vstd::prelude::*;

use crate::api::api_names;
use crate::text::{chars_of, digit, name_char, name_start, starts_with, str_eq, trim_chars};

verus! {

/// `+`, `-`, `*`, `/` or `^`.
pub open spec fn is_operator(c: char) -> bool {
    c == '+' || c == '-' || c == '*' || c == '/' || c == '^'
}

/// A character allowed anywhere in an arithmetic line:
/// `[ 0-9\.\(\)\+\-\*/\^]`.
pub open spec fn is_arith_char(c: char) -> bool {
    c == ' ' || crate::text::is_digit(c) || c == '.' || c == '(' || c == ')' || is_operator(c)
}

/// A character allowed at the end of an arithmetic line: `[\.0-9 \)]`.
pub open spec fn is_arith_end(c: char) -> bool {
    c == '.' || crate::text::is_digit(c) || c == ' ' || c == ')'
}

/// A line the shell evaluates as arithmetic: it holds a digit and an operator,
/// has at least two characters, all of them from the arithmetic alphabet, and
/// ends in a digit, a dot, a space or a closing parenthesis.
pub open spec fn arithmetic_line(s: Seq<char>) -> bool {
    &&& exists|i: int| 0 <= i < s.len() && crate::text::is_digit(#[trigger] s[i])
    &&& exists|i: int| 0 <= i < s.len() && is_operator(#[trigger] s[i])
    &&& s.len() >= 2
    &&& forall|i: int| 0 <= i < s.len() - 1 ==> is_arith_char(#[trigger] s[i])
    &&& is_arith_end(s.last())
}

/// `s` is `NAME=VALUE` with `=` at index `k`: a name of letters, digits and
/// underscores that does not start with a digit, then the value, which holds
/// no line feed (`^[a-zA-Z_][a-zA-Z0-9_]*=.*$`).
pub open spec fn assignment_at(s: Seq<char>, k: int) -> bool {
    &&& 1 <= k < s.len()
    &&& crate::text::is_name_start(s[0])
    &&& forall|j: int| 1 <= j < k ==> crate::text::is_name_char(#[trigger] s[j])
    &&& s[k] == '='
    &&& forall|j: int| k < j < s.len() ==> #[trigger] s[j] != '\n'
}

/// A variable assignment line.
pub open spec fn assignment_line(s: Seq<char>) -> bool {
    exists|k: int| assignment_at(s, k)
}

/// A line that changes the shell's own state: after trimming it is an
/// assignment, or starts with `alias `, `export `, `unalias `, `unset ` or
/// `source `.
pub open spec fn altering_line(s: Seq<char>) -> bool {
    let t = crate::text::trim(s);
    ||| assignment_line(t)
    ||| crate::text::has_prefix(t, "alias "@)
    ||| crate::text::has_prefix(t, "export "@)
    ||| crate::text::has_prefix(t, "unalias "@)
    ||| crate::text::has_prefix(t, "unset "@)
    ||| crate::text::has_prefix(t, "source "@)
}

/// Whether `s` names one of the shell's builtin commands.
pub fn api(s: &str) -> (r: bool)
    ensures
        r == crate::api::builtin_names().contains(s@),
{
    let names = api_names();
    let mut i: usize = 0;
    while i < names.len()
        invariant
            names@.map_values(|t: &str| t@) == crate::api::builtin_names(),
            i <= names@.len(),
            forall|j: int| 0 <= j < i ==> (#[trigger] names@[j])@ != s@,
        decreases names@.len() - i,
    {
        if str_eq(names[i], s) {
            assert(names@.map_values(|t: &str| t@)[i as int] == names@[i as int]@);
            return true;
        }
        i = i + 1;
    }
    proof {
        if crate::api::builtin_names().contains(s@) {
            let k = choose|k: int| 0 <= k < crate::api::builtin_names().len() && crate::api::builtin_names()[k] == s@;
            assert(names@.map_values(|t: &str| t@)[k] == names@[k]@);
        }
    }
    false
}

fn arithmetic_chars(v: &Vec<char>) -> (r: bool)
    ensures
        r == arithmetic_line(v@),
{
    let n = v.len();
    let mut has_digit = false;
    let mut has_op = false;
    let mut all_arith = true;
    let mut i: usize = 0;
    while i < n
        invariant
            n == v@.len(),
            i <= n,
            has_digit == exists|j: int| 0 <= j < i && crate::text::is_digit(#[trigger] v@[j]),
            has_op == exists|j: int| 0 <= j < i && is_operator(#[trigger] v@[j]),
            all_arith == forall|j: int| 0 <= j < i && j < n - 1 ==> is_arith_char(#[trigger] v@[j]),
        decreases n - i,
    {
        let c = v[i];
        let d = digit(c);
        let o = c == '+' || c == '-' || c == '*' || c == '/' || c == '^';
        let a = c == ' ' || d || c == '.' || c == '(' || c == ')' || o;
        proof {
            assert(v@[i as int] == c);
        }
        has_digit = has_digit || d;
        has_op = has_op || o;
        if i + 1 < n {
            all_arith = all_arith && a;
        }
        i = i + 1;
    }
    if n < 2 {
        return false;
    }
    let last = v[n - 1];
    let end_ok = last == '.' || digit(last) || last == ' ' || last == ')';
    has_digit && has_op && all_arith && end_ok
}

/// Whether `line` is an arithmetic expression for the shell's calculator.
pub fn arithmetic(line: &str) -> (r: bool)
    ensures
        r == arithmetic_line(line@),
{
    let v = chars_of(line);
    arithmetic_chars(&v)
}

fn assignment_chars(v: &Vec<char>) -> (r: bool)
    ensures
        r == assignment_line(v@),
{
    let n = v.len();
    if n < 2 || !name_start(v[0]) {
        proof {
            if assignment_line(v@) {
                let k = choose|k: int| assignment_at(v@, k);
                assert(assignment_at(v@, k));
            }
        }
        return false;
    }
    let mut k: usize = 1;
    while k < n && name_char(v[k])
        invariant
            n == v@.len(),
            1 <= k <= n,
            forall|j: int| 1 <= j < k ==> crate::text::is_name_char(#[trigger] v@[j]),
        decreases n - k,
    {
        k = k + 1;
    }
    if k == n || v[k] != '=' {
        proof {
            if assignment_line(v@) {
                let k2 = choose|k2: int| assignment_at(v@, k2);
                assert(assignment_at(v@, k2));
                if k2 < k {
                    assert(crate::text::is_name_char(v@[k2]));
                } else if k2 > k {
                    assert(crate::text::is_name_char(v@[k as int]));
                    assert(!crate::text::is_name_char(v@[k as int]));
                }
            }
        }
        return false;
    }
    let mut j: usize = k + 1;
    while j < n
        invariant
            n == v@.len(),
            k < j <= n,
            forall|i: int| k < i < j ==> #[trigger] v@[i] != '\n',
        decreases n - j,
    {
        if v[j] == '\n' {
            proof {
                if assignment_line(v@) {
                    let k2 = choose|k2: int| assignment_at(v@, k2);
                    assert(assignment_at(v@, k2));
                    if k2 < k {
                        assert(crate::text::is_name_char(v@[k2]));
                    } else if k2 > k {
                        assert(crate::text::is_name_char(v@[k as int]));
                    }
                    assert(v@[j as int] == '\n');
                }
            }
            return false;
        }
        j = j + 1;
    }
    assert(assignment_at(v@, k as int));
    true
}

/// Whether `line` assigns an environment variable (`NAME=VALUE`).
pub fn environment(line: &str) -> (r: bool)
    ensures
        r == assignment_line(line@),
{
    let v = chars_of(line);
    assignment_chars(&v)
}

/// Whether the characters of `v` form a line that alters the shell's state.
pub fn altering_chars(v: &Vec<char>) -> (r: bool)
    ensures
        r == altering_line(v@),
{
    let t = trim_chars(v);
    if assignment_chars(&t) {
        return true;
    }
    starts_with(&t, "alias ") || starts_with(&t, "export ") || starts_with(&t, "unalias ")
        || starts_with(&t, "unset ") || starts_with(&t, "source ")
}

/// Whether `line` alters the shell's own state (an assignment, or one of the
/// builtins `alias`, `export`, `unalias`, `unset`, `source` with arguments).
pub fn shell_altering_command(line: &str) -> (r: bool)
    ensures
        r == altering_line(line@),
{
    let v = chars_of(line);
    altering_chars(&v)
}

/// Whether the signal handler is enabled, given the value of the
/// `PLS_ENABLE_SIG_HANDLER` environment variable (`None` when it is unset or
/// not Unicode): it is enabled when the value is exactly `1`.
pub fn signal_handler_enabled(value: Option<&str>) -> (r: bool)
    ensures
        r == (value matches Some(v) && v@ == "1"@),
{
    match value {
        Some(v) => str_eq(v, "1"),
        None => false,
    }
}

} // verus!

verus! {

proof fn lemma_assignment_survives_trim_end(s: Seq<char>, k: int)
    requires
        assignment_at(s, k),
    ensures
        assignment_at(crate::text::trim_end(s), k),
    decreases s.len(),
{
    if s.len() > 0 && crate::text::is_white_space(s.last()) {
        let t = s.drop_last();
        assert(k < s.len() - 1) by {
            if k == s.len() - 1 {
                assert(s.last() == '=');
            }
        }
        assert(assignment_at(t, k)) by {
            assert forall|j: int| 1 <= j < k implies crate::text::is_name_char(#[trigger] t[j]) by {
                assert(t[j] == s[j]);
            }
            assert forall|j: int| k < j < t.len() implies #[trigger] t[j] != '\n' by {
                assert(t[j] == s[j]);
            }
        }
        lemma_assignment_survives_trim_end(t, k);
    }
}

/// White space around a line does not change whether it alters the shell's
/// state.
pub proof fn lemma_altering_ignores_surrounding_space(s: Seq<char>)
    ensures
        altering_line(crate::text::trim(s)) == altering_line(s),
{
    crate::text::lemma_trim_idempotent(s);
}

/// Every variable assignment alters the shell's state.
pub proof fn lemma_assignment_alters(s: Seq<char>)
    requires
        assignment_line(s),
    ensures
        altering_line(s),
{
    let k = choose|k: int| assignment_at(s, k);
    assert(!crate::text::is_white_space(s[0]));
    assert(crate::text::trim_start(s) == s);
    lemma_assignment_survives_trim_end(s, k);
    assert(assignment_line(crate::text::trim(s)));
}

/// No arithmetic line is a variable assignment.
pub proof fn lemma_arithmetic_is_no_assignment(s: Seq<char>)
    requires
        arithmetic_line(s),
    ensures
        !assignment_line(s),
{
    assert(is_arith_char(s[0]));
}

} // verus!
