//! pls: the line-level logic of a bash-like shell, with the small pieces of
//! the SQLite, random-number, error-description and known-folder support it
//! carries.
use vstd::prelude::*;

pub mod api;
pub mod builtins;
pub mod dirs;
pub mod errno;
pub mod is;
pub mod lines;
pub mod parses;
pub mod path;
pub mod pipeline;
pub mod regex;
pub mod replies;
pub mod rngs;
pub mod sqlite;
pub mod text;
pub mod tokens;

use crate::lines::LineInfo;
use crate::replies::Reply;

verus! {

/// Parses a command into tokens: the command's pieces between single spaces,
/// unquoted and in order, on a complete line.
pub fn parse_line(cmd: &str) -> (r: LineInfo)
    ensures
        r.is_complete,
        crate::tokens::token_texts(r.tokens@) == crate::text::split_on(cmd@, ' '),
        crate::tokens::all_unquoted(r.tokens@),
{
    let v = crate::text::chars_of(cmd);
    LineInfo::create(crate::parses::line::split_spaces(&v))
}

/// Runs a command or a pipeline: the commands of the pipeline that `line`
/// asks for, to be started in order, each reading what the one before it
/// writes (`pipeline::finish` gives the reply once they ran); or, when there
/// is nothing to start, the reply at once: a successful reply with no output,
/// for a blank line and for a line with a command that has no words alike.
pub fn run(line: &str) -> (r: Result<Vec<Vec<String>>, Reply>)
    ensures
        crate::pipeline::plan_of(line@) matches Some(p) ==> (p.len() > 0 ==> (r matches Ok(s)
            && crate::pipeline::plan_views(s@) == p)),
        crate::pipeline::plan_of(line@) matches Some(p) ==> (p.len() == 0 ==> (r matches Err(
            rep,
        ) && rep.gid == 0 && rep.status == 0 && rep.stdout@.len() == 0 && rep.stderr@.len()
            == 0)),
        crate::pipeline::plan_of(line@) is None ==> (r matches Err(rep) && rep.gid == 0
            && rep.status == 0 && rep.stdout@.len() == 0 && rep.stderr@.len() == 0),
{
    match crate::pipeline::plan(line) {
        None => Err(Reply::new()),
        Some(stages) => {
            if stages.len() == 0 {
                Err(Reply::new())
            } else {
                Ok(stages)
            }
        },
    }
}

} // verus!
