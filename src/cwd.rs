//! The Change Working Directory (`CWD`) command.
//!
//! The handler answers at once with no reply and names the directory the
//! storage backend is to enter; when the backend has answered, `complete`
//! commits that same directory, on success only, and gives the message to
//! report.

use vstd::prelude::*;

use crate::path::{path_join, FsPath};
use crate::reply::Reply;
use crate::session::{InternalMsg, Session, StorageError};

verus! {

/// A directory change that storage accepted lands on the working directory
/// at the time of the command joined with the argument; one it rejected
/// leaves the working directory where it was.
pub proof fn lemma_cwd_outcome(
    before: Seq<char>,
    arg: Seq<char>,
    target: Seq<char>,
    after: Seq<char>,
    accepted: bool,
)
    requires
        target == path_join(before, arg),
        accepted ==> after == target,
        !accepted ==> after == before,
    ensures
        accepted ==> after == path_join(before, arg),
        !accepted ==> after == before,
{
}

pub struct Cwd {
    path: FsPath,
}

impl Cwd {
    pub closed spec fn arg(&self) -> Seq<char> {
        self.path@
    }

    pub fn new(path: FsPath) -> (r: Cwd)
        ensures
            r.arg() == path@,
    {
        Cwd { path }
    }

    /// The deferred reply, and the directory to ask the storage backend for:
    /// the argument resolved against the current working directory.
    pub fn execute(&self, session: &Session) -> (r: (Reply, FsPath))
        ensures
            r.0 is Deferred,
            r.1@ == path_join(session.cwd@, self.arg()),
    {
        (Reply::none(), session.cwd.join(&self.path))
    }

    /// Applies the storage backend's answer about `target`, the directory
    /// that `execute` named: on success the working directory becomes
    /// `target`, the path the backend checked; on failure nothing changes.
    pub fn complete(
        session: &mut Session,
        target: FsPath,
        outcome: Result<(), StorageError>,
    ) -> (r: InternalMsg)
        ensures
            match outcome {
                Ok(()) => r == InternalMsg::CwdSuccess && final(session).cwd@ == target@,
                Err(e) => r == InternalMsg::StorageError(e) && final(session).cwd@ == old(session).cwd@,
            },
            final(session).state == old(session).state,
            final(session).username == old(session).username,
            final(session).rename_from == old(session).rename_from,
            final(session).data_channels == old(session).data_channels,
    {
        match outcome {
            Ok(()) => {
                session.cwd = target;
                InternalMsg::CwdSuccess
            },
            Err(e) => InternalMsg::StorageError(e),
        }
    }
}

} // verus!
