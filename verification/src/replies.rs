//! The reply of a command run.
use vstd::prelude::*;

verus! {

/// What running a command produced: the process group, the exit status and
/// the captured output streams.
#[derive(Clone, Debug)]
pub struct Reply {
    pub gid: i32,
    pub status: i32,
    pub stdout: String,
    pub stderr: String,
}

impl Reply {
    /// A successful reply with no output.
    pub fn new() -> (r: Reply)
        ensures
            r.gid == 0,
            r.status == 0,
            r.stdout@ == Seq::<char>::empty(),
            r.stderr@ == Seq::<char>::empty(),
    {
        Reply { gid: 0, status: 0, stdout: String::new(), stderr: String::new() }
    }

    /// A reply with the given process group and status and no output.
    pub fn from_status(gid: i32, status: i32) -> (r: Reply)
        ensures
            r.gid == gid,
            r.status == status,
            r.stdout@ == Seq::<char>::empty(),
            r.stderr@ == Seq::<char>::empty(),
    {
        Reply { gid, status, stdout: String::new(), stderr: String::new() }
    }

    /// A failed reply (status 1) with no output.
    pub fn error() -> (r: Reply)
        ensures
            r.gid == 0,
            r.status == 1,
            r.stdout@ == Seq::<char>::empty(),
            r.stderr@ == Seq::<char>::empty(),
    {
        Reply { gid: 0, status: 1, stdout: String::new(), stderr: String::new() }
    }
}

impl Default for Reply {
    fn default() -> (r: Reply)
        ensures
            r.gid == 0,
            r.status == 0,
            r.stdout@ == Seq::<char>::empty(),
            r.stderr@ == Seq::<char>::empty(),
    {
        Reply::new()
    }
}

} // verus!
