//! The Rename From (`RNFR`) command: stages the source of a rename.

use vstd::prelude::*;

use crate::path::{path_join, FsPath};
use crate::reply::{Reply, ReplyCode};
use crate::session::Session;

verus! {

/// `after` is `before` once the source `arg` was staged: the source is `arg`
/// resolved against the working directory, and nothing else changes.
pub open spec fn rnfr_effect(before: Session, after: Session, arg: Seq<char>) -> bool {
    &&& after.rename_from matches Some(p) && p@ == path_join(before.cwd@, arg)
    &&& after.state == before.state
    &&& after.username == before.username
    &&& after.cwd@ == before.cwd@
    &&& after.data_channels == before.data_channels
}

/// Staging twice keeps the second source only, resolved against the same
/// working directory as the first.
pub proof fn lemma_rnfr_overwrites(
    s0: Session,
    s1: Session,
    s2: Session,
    first: Seq<char>,
    second: Seq<char>,
)
    requires
        rnfr_effect(s0, s1, first),
        rnfr_effect(s1, s2, second),
    ensures
        s2.rename_from matches Some(p) && p@ == path_join(s0.cwd@, second),
        s2.cwd@ == s0.cwd@,
{
}

pub struct Rnfr {
    path: FsPath,
}

impl Rnfr {
    pub closed spec fn arg(&self) -> Seq<char> {
        self.path@
    }

    pub fn new(path: FsPath) -> (r: Rnfr)
        ensures
            r.arg() == path@,
    {
        Rnfr { path }
    }

    /// Stores the argument, resolved against the working directory, as the
    /// pending rename source, replacing any earlier one.
    pub fn execute(&self, session: &mut Session) -> (r: Reply)
        ensures
            r.is_single(ReplyCode::FileActionPending, "Tell me, what would you like the new name to be?"@),
            rnfr_effect(*old(session), *final(session), self.arg()),
    {
        session.rename_from = Some(session.cwd.join(&self.path));
        Reply::new(ReplyCode::FileActionPending, "Tell me, what would you like the new name to be?")
    }
}

} // verus!
