//! Per-connection session state, and the values background work reports.

use vstd::prelude::*;
use vstd::string::*;

use crate::path::FsPath;

verus! {

/// Where the login sequence stands.
#[derive(Clone, Copy, Debug, PartialEq, Eq, Structural)]
pub enum SessionState {
    New,
    WaitPass,
    WaitCmd,
}

/// The mutable state of one control connection.
#[derive(Debug)]
pub struct Session {
    pub state: SessionState,
    pub username: Option<String>,
    pub cwd: FsPath,
    pub rename_from: Option<FsPath>,
    /// The token of the data-command and abort channel pair that the last
    /// passive-mode negotiation installed; its holder owns the channels.
    pub data_channels: Option<u64>,
}

impl Session {
    /// A fresh session: not logged in, at the storage root.
    pub fn new() -> (r: Session)
        ensures
            r.state == SessionState::New,
            r.username is None,
            r.cwd@ == seq!['/'],
            r.rename_from is None,
            r.data_channels is None,
    {
        proof {
            reveal_strlit("/");
        }
        Session {
            state: SessionState::New,
            username: None,
            cwd: FsPath::from_str("/"),
            rename_from: None,
            data_channels: None,
        }
    }
}

/// The kinds of failure a storage backend reports.
#[derive(Clone, Copy, Debug, PartialEq, Eq, Structural)]
pub enum ErrorKind {
    TransientFileNotAvailable,
    PermanentFileNotAvailable,
    PermissionDenied,
    LocalError,
    PageTypeUnknown,
    InsufficientStorageSpaceError,
    ExceededStorageAllocationError,
    FileNameNotAllowedError,
}

/// A failure reported by a storage backend.
#[derive(Clone, Copy, Debug, PartialEq, Eq, Structural)]
pub struct StorageError {
    pub kind: ErrorKind,
}

/// What a background task reports to the control loop.
#[derive(Clone, Copy, Debug, PartialEq, Eq, Structural)]
pub enum InternalMsg {
    /// The working directory was changed.
    CwdSuccess,
    StorageError(StorageError),
}

/// A failure of a command handler itself, as opposed to a reply.
#[derive(Clone, Copy, Debug, PartialEq, Eq, Structural)]
pub enum FtpError {
    /// A user name that is not valid UTF-8.
    InvalidUtf8,
    /// The session could not be reached.
    SessionUnavailable,
}

} // verus!
