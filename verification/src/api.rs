//! The names of the shell's builtin commands.
use vstd::prelude::*;

verus! {

/// The number of builtin commands.
pub const API_LEN: usize = 20;

/// The names of the shell's builtin commands, in the order the shell lists
/// them.
pub open spec fn builtin_names() -> Seq<Seq<char>> {
    seq![
        "alias"@,
        "bg"@,
        "cd"@,
        "check"@,
        "cinfo"@,
        "exec"@,
        "exit"@,
        "export"@,
        "fg"@,
        "history"@,
        "jobs"@,
        "read"@,
        "source"@,
        "ulimit"@,
        "unalias"@,
        "vox"@,
        "minfd"@,
        "set"@,
        "unset"@,
        "unpath"@,
    ]
}

/// The builtins are exactly twenty distinct names: `alias`, `bg`, `cd`,
/// `check`, `cinfo`, `exec`, `exit`, `export`, `fg`, `history`, `jobs`,
/// `read`, `source`, `ulimit`, `unalias`, `vox`, `minfd`, `set`, `unset` and
/// `unpath`, each listed once.
#[verifier::rlimit(50)]
pub proof fn lemma_builtin_names_listed()
    ensures
        builtin_names().len() == API_LEN,
        forall|i: int, j: int|
            0 <= i < j < builtin_names().len() ==> builtin_names()[i] != builtin_names()[j],
        builtin_names().contains("alias"@),
        builtin_names().contains("bg"@),
        builtin_names().contains("cd"@),
        builtin_names().contains("check"@),
        builtin_names().contains("cinfo"@),
        builtin_names().contains("exec"@),
        builtin_names().contains("exit"@),
        builtin_names().contains("export"@),
        builtin_names().contains("fg"@),
        builtin_names().contains("history"@),
        builtin_names().contains("jobs"@),
        builtin_names().contains("read"@),
        builtin_names().contains("source"@),
        builtin_names().contains("ulimit"@),
        builtin_names().contains("unalias"@),
        builtin_names().contains("vox"@),
        builtin_names().contains("minfd"@),
        builtin_names().contains("set"@),
        builtin_names().contains("unset"@),
        builtin_names().contains("unpath"@),
{
    reveal_strlit("alias");
    reveal_strlit("bg");
    reveal_strlit("cd");
    reveal_strlit("check");
    reveal_strlit("cinfo");
    reveal_strlit("exec");
    reveal_strlit("exit");
    reveal_strlit("export");
    reveal_strlit("fg");
    reveal_strlit("history");
    reveal_strlit("jobs");
    reveal_strlit("read");
    reveal_strlit("source");
    reveal_strlit("ulimit");
    reveal_strlit("unalias");
    reveal_strlit("vox");
    reveal_strlit("minfd");
    reveal_strlit("set");
    reveal_strlit("unset");
    reveal_strlit("unpath");
    let names = builtin_names();
    assert forall|i: int, j: int| 0 <= i < j < names.len() implies names[i] != names[j] by {
        if names[i] == names[j] {
            assert(names[i].len() == names[j].len());
            assert(names[i][0] == names[j][0]);
            if names[i].len() > 1 {
                assert(names[i][1] == names[j][1]);
            }
            if names[i].len() > 2 {
                assert(names[i][2] == names[j][2]);
            }
        }
    }
    assert(names[0] == "alias"@);
    assert(names[1] == "bg"@);
    assert(names[2] == "cd"@);
    assert(names[3] == "check"@);
    assert(names[4] == "cinfo"@);
    assert(names[5] == "exec"@);
    assert(names[6] == "exit"@);
    assert(names[7] == "export"@);
    assert(names[8] == "fg"@);
    assert(names[9] == "history"@);
    assert(names[10] == "jobs"@);
    assert(names[11] == "read"@);
    assert(names[12] == "source"@);
    assert(names[13] == "ulimit"@);
    assert(names[14] == "unalias"@);
    assert(names[15] == "vox"@);
    assert(names[16] == "minfd"@);
    assert(names[17] == "set"@);
    assert(names[18] == "unset"@);
    assert(names[19] == "unpath"@);
}

/// The names of the shell's builtin commands.
pub fn api_names() -> (r: [&'static str; 20])
    ensures
        r@.map_values(|s: &str| s@) == builtin_names(),
{
    let r = [
        "alias",
        "bg",
        "cd",
        "check",
        "cinfo",
        "exec",
        "exit",
        "export",
        "fg",
        "history",
        "jobs",
        "read",
        "source",
        "ulimit",
        "unalias",
        "vox",
        "minfd",
        "set",
        "unset",
        "unpath",
    ];
    assert(r@.map_values(|s: &str| s@) =~= builtin_names());
    r
}

} // verus!
