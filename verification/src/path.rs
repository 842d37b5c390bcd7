//! The shell's search path.
use vstd::prelude::*;

use crate::text::{append_str, chars_of};

verus! {

/// The system drive.
pub const DRIVE: &'static str = r#"C:"#;

/// The operating system's directory below the drive.
pub const OPERATING_SYSTEM: &'static str = r#"\\WINDOWS"#;

/// The system directory below the operating system's.
pub const SYSTEM: &'static str = r#"\\SYSTEM32"#;

/// The directories the shell puts on its search path when they exist, in
/// order: the operating system's directory, its system directory, and the
/// `Drivers`, `Drivers\\DriverData`, `OpenSSH`, `Wbem`, `WindowsPowerShell`
/// and `WindowsPowerShell\\v1.0` directories below that.
pub open spec fn system_path_candidates() -> Seq<Seq<char>> {
    let os = DRIVE@ + OPERATING_SYSTEM@;
    let sys = os + SYSTEM@;
    seq![
        os,
        sys,
        sys + r#"\\Drivers"#@,
        sys + r#"\\Drivers\\DriverData"#@,
        sys + r#"\\OpenSSH"#@,
        sys + r#"\\Wbem"#@,
        sys + r#"\\WindowsPowerShell"#@,
        sys + r#"\\WindowsPowerShell\\v1.0"#@,
    ]
}

fn joined(parts: &[&str]) -> (r: String)
    ensures
        r@ == parts@.fold_left(Seq::<char>::empty(), |acc: Seq<char>, p: &str| acc + p@),
{
    let mut s = String::new();
    let mut i: usize = 0;
    while i < parts.len()
        invariant
            i <= parts@.len(),
            s@ == parts@.subrange(0, i as int).fold_left(
                Seq::<char>::empty(),
                |acc: Seq<char>, p: &str| acc + p@,
            ),
        decreases parts@.len() - i,
    {
        let ghost before = s@;
        append_str(&mut s, parts[i]);
        proof {
            let f = |acc: Seq<char>, p: &str| acc + p@;
            let pre = parts@.subrange(0, i as int);
            let post = parts@.subrange(0, i + 1);
            assert(post.drop_last() =~= pre);
            assert(post.fold_left(Seq::<char>::empty(), f) == f(
                pre.fold_left(Seq::<char>::empty(), f),
                post.last(),
            ));
        }
        i = i + 1;
    }
    assert(parts@.subrange(0, parts@.len() as int) =~= parts@);
    s
}

/// The candidate system directories of the search path, in order.
pub fn system_paths() -> (r: Vec<String>)
    ensures
        crate::text::string_views(r@) == system_path_candidates(),
{
    let mut r: Vec<String> = Vec::new();
    let a = [DRIVE, OPERATING_SYSTEM];
    r.push(joined(&a));
    let b = [DRIVE, OPERATING_SYSTEM, SYSTEM];
    r.push(joined(&b));
    let c = [DRIVE, OPERATING_SYSTEM, SYSTEM, r#"\\Drivers"#];
    r.push(joined(&c));
    let d = [DRIVE, OPERATING_SYSTEM, SYSTEM, r#"\\Drivers\\DriverData"#];
    r.push(joined(&d));
    let e = [DRIVE, OPERATING_SYSTEM, SYSTEM, r#"\\OpenSSH"#];
    r.push(joined(&e));
    let f = [DRIVE, OPERATING_SYSTEM, SYSTEM, r#"\\Wbem"#];
    r.push(joined(&f));
    let g = [DRIVE, OPERATING_SYSTEM, SYSTEM, r#"\\WindowsPowerShell"#];
    r.push(joined(&g));
    let h = [DRIVE, OPERATING_SYSTEM, SYSTEM, r#"\\WindowsPowerShell\\v1.0"#];
    r.push(joined(&h));
    proof {
        let fl = |acc: Seq<char>, p: &str| acc + p@;
        reveal_with_fuel(Seq::fold_left, 5);
        assert(a@.fold_left(Seq::<char>::empty(), fl) =~= DRIVE@ + OPERATING_SYSTEM@);
        assert(b@.fold_left(Seq::<char>::empty(), fl) =~= DRIVE@ + OPERATING_SYSTEM@ + SYSTEM@);
    }
    assert(crate::text::string_views(r@) =~= system_path_candidates());
    r
}

/// Whether a sequence holds no element twice.
pub open spec fn no_duplicates(s: Seq<Seq<char>>) -> bool {
    forall|i: int, j: int| 0 <= i < j < s.len() ==> s[i] != s[j]
}

fn contains_string(v: &Vec<String>, x: &String) -> (r: bool)
    ensures
        r == crate::text::string_views(v@).contains(x@),
{
    let mut i: usize = 0;
    while i < v.len()
        invariant
            i <= v@.len(),
            forall|j: int| 0 <= j < i ==> (#[trigger] v@[j])@ != x@,
        decreases v@.len() - i,
    {
        if v[i] == *x {
            assert(crate::text::string_views(v@)[i as int] == x@);
            return true;
        }
        i = i + 1;
    }
    proof {
        if crate::text::string_views(v@).contains(x@) {
            let k = choose|k: int|
                0 <= k < v@.len() && #[trigger] crate::text::string_views(v@)[k] == x@;
            assert(v@[k]@ == x@);
        }
    }
    false
}

proof fn lemma_add_once(
    before: Seq<Seq<char>>,
    now: Seq<Seq<char>>,
    pre: Seq<Seq<char>>,
    x: Seq<char>,
)
    requires
        no_duplicates(before),
        forall|p: Seq<char>| before.contains(p) <==> pre.contains(p),
        now == (if before.contains(x) {
            before
        } else {
            before.push(x)
        }),
    ensures
        no_duplicates(now),
        forall|p: Seq<char>| now.contains(p) <==> pre.push(x).contains(p),
{
    assert forall|p: Seq<char>| now.contains(p) <==> pre.push(x).contains(p) by {
        if now.contains(p) {
            let k = choose|k: int| 0 <= k < now.len() && now[k] == p;
            if k < before.len() {
                assert(before[k] == p);
                assert(before.contains(p));
                let k2 = choose|k2: int| 0 <= k2 < pre.len() && pre[k2] == p;
                assert(pre.push(x)[k2] == p);
            } else {
                assert(pre.push(x)[pre.len() as int] == p);
            }
        }
        if pre.push(x).contains(p) {
            let k = choose|k: int| 0 <= k < pre.push(x).len() && pre.push(x)[k] == p;
            if k < pre.len() {
                assert(pre[k] == p);
                assert(pre.contains(p));
                let k2 = choose|k2: int| 0 <= k2 < before.len() && before[k2] == p;
                assert(now[k2] == p);
            } else if before.contains(x) {
                let k2 = choose|k2: int| 0 <= k2 < before.len() && before[k2] == x;
                assert(now[k2] == p);
            } else {
                assert(now[before.len() as int] == p);
            }
        }
    }
}

proof fn lemma_concat_contains(e: Seq<Seq<char>>, f: Seq<Seq<char>>)
    ensures
        forall|p: Seq<char>| (e + f).contains(p) <==> (e.contains(p) || f.contains(p)),
{
    assert forall|p: Seq<char>| (e + f).contains(p) <==> (e.contains(p) || f.contains(p)) by {
        let all = e + f;
        if all.contains(p) {
            let k = choose|k: int| 0 <= k < all.len() && all[k] == p;
            if k < e.len() {
                assert(e[k] == p);
            } else {
                assert(f[k - e.len()] == p);
            }
        }
        if e.contains(p) {
            let k = choose|k: int| 0 <= k < e.len() && e[k] == p;
            assert(all[k] == p);
        }
        if f.contains(p) {
            let k = choose|k: int| 0 <= k < f.len() && f[k] == p;
            assert(all[e.len() + k] == p);
        }
    }
}

fn add_once(r: &mut Vec<String>, x: String)
    ensures
        crate::text::string_views(final(r)@) == (if crate::text::string_views(old(r)@).contains(
            x@,
        ) {
            crate::text::string_views(old(r)@)
        } else {
            crate::text::string_views(old(r)@).push(x@)
        }),
{
    if !contains_string(r, &x) {
        let ghost before = crate::text::string_views(r@);
        r.push(x);
        assert(crate::text::string_views(r@) =~= before.push(x@));
    }
}

/// The elements of `s`, each at its first place only.
pub open spec fn first_occurrences(s: Seq<Seq<char>>) -> Seq<Seq<char>>
    decreases s.len(),
{
    if s.len() == 0 {
        Seq::<Seq<char>>::empty()
    } else {
        let d = first_occurrences(s.drop_last());
        if d.contains(s.last()) {
            d
        } else {
            d.push(s.last())
        }
    }
}

/// Keeping only first occurrences leaves no element twice and drops no
/// element.
pub proof fn lemma_first_occurrences(s: Seq<Seq<char>>)
    ensures
        no_duplicates(first_occurrences(s)),
        forall|p: Seq<char>| first_occurrences(s).contains(p) <==> s.contains(p),
    decreases s.len(),
{
    if s.len() == 0 {
    } else {
        let t = s.drop_last();
        lemma_first_occurrences(t);
        lemma_add_once(first_occurrences(t), first_occurrences(s), t, s.last());
        assert(t.push(s.last()) =~= s);
    }
}

/// The directories of the search path: those of `existing` and then those of
/// `from_env`, each kept once, at its first place. The result holds exactly
/// the directories of the two lists and none twice.
pub fn merge_paths(existing: Vec<String>, from_env: Vec<String>) -> (r: Vec<String>)
    ensures
        crate::text::string_views(r@) == first_occurrences(
            crate::text::string_views(existing@) + crate::text::string_views(from_env@),
        ),
        no_duplicates(crate::text::string_views(r@)),
        forall|p: Seq<char>|
            crate::text::string_views(r@).contains(p) <==> (crate::text::string_views(
                existing@,
            ).contains(p) || crate::text::string_views(from_env@).contains(p)),
{
    let mut r: Vec<String> = Vec::new();
    let ghost all = crate::text::string_views(existing@) + crate::text::string_views(from_env@);
    let n = existing.len();
    let mut i: usize = 0;
    while i < n
        invariant
            n == existing@.len(),
            i <= n,
            all == crate::text::string_views(existing@) + crate::text::string_views(from_env@),
            crate::text::string_views(r@) == first_occurrences(all.take(i as int)),
        decreases n - i,
    {
        let x = existing[i].clone();
        add_once(&mut r, x);
        proof {
            assert(all[i as int] == x@);
            assert(all.take(i + 1).drop_last() =~= all.take(i as int));
        }
        i = i + 1;
    }
    let mut j: usize = 0;
    while j < from_env.len()
        invariant
            n == existing@.len(),
            j <= from_env@.len(),
            all == crate::text::string_views(existing@) + crate::text::string_views(from_env@),
            crate::text::string_views(r@) == first_occurrences(all.take(n + j)),
        decreases from_env@.len() - j,
    {
        let x = from_env[j].clone();
        add_once(&mut r, x);
        proof {
            assert(all[n + j] == x@);
            assert(all.take(n + j + 1).drop_last() =~= all.take(n + j));
        }
        j = j + 1;
    }
    proof {
        assert(all.take(n + j) =~= all);
        lemma_first_occurrences(all);
        lemma_concat_contains(crate::text::string_views(existing@), crate::text::string_views(from_env@));
    }
    r
}

/// Whether `line` alters the shell's own state (an assignment, or one of the
/// builtins `alias`, `export`, `unalias`, `unset`, `source` with arguments).
pub fn is_shell_altering_command(line: &str) -> (r: bool)
    ensures
        r == crate::is::altering_line(line@),
{
    let v = chars_of(line);
    crate::is::altering_chars(&v)
}

} // verus!
