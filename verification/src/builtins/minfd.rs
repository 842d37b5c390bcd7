//! The `minfd` builtin.
use vstd::prelude::*;

use crate::replies::Reply;

verus! {

/// The message `minfd` reports on this platform.
pub const NOT_SUPPORTED: &'static str = ":: minfd: error: Not Supported On The Windows Platform";

/// Runs `minfd`: it is not supported here, so it gives an empty successful
/// reply together with the message to report on standard error.
pub fn run(capture: bool) -> (r: (Reply, &'static str))
    ensures
        r.0.gid == 0,
        r.0.status == 0,
        r.0.stdout@ == Seq::<char>::empty(),
        r.0.stderr@ == Seq::<char>::empty(),
        r.1@ == NOT_SUPPORTED@,
{
    let cr = Reply::new();
    (cr, NOT_SUPPORTED)
}

} // verus!
