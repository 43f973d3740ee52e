//! The User Name (`USER`) command: the first step of the login sequence.

use vstd::prelude::*;
use vstd::string::*;
use vstd::utf8::*;

use crate::reply::{Reply, ReplyCode};
use crate::session::{FtpError, Session, SessionState};

verus! {

/// Relies on std::str::from_utf8: it succeeds exactly on valid UTF-8, and
/// then yields the text that the bytes encode.
#[verifier::external_body]
fn text_of_utf8(b: &Vec<u8>) -> (r: Option<String>)
    ensures
        r is Some <==> valid_utf8(b@),
        r matches Some(s) ==> s@ == decode_utf8(b@),
{
    match std::str::from_utf8(b.as_slice()) {
        Ok(s) => Some(s.to_owned()),
        Err(_) => None,
    }
}

pub struct User {
    username: Vec<u8>,
}

impl User {
    pub closed spec fn name(&self) -> Seq<u8> {
        self.username@
    }

    pub fn new(username: Vec<u8>) -> (r: User)
        ensures
            r.name() == username@,
    {
        User { username }
    }

    /// Before login, stores the name and waits for the password; once logged
    /// in, refuses and leaves the session as it was.
    pub fn execute(&self, session: &mut Session) -> (r: Result<Reply, FtpError>)
        ensures
            old(session).state == SessionState::WaitCmd ==> {
                &&& r matches Ok(rep) && rep.is_single(
                    ReplyCode::BadCommandSequence,
                    "Please create a new connection to switch user"@,
                )
                &&& *final(session) == *old(session)
            },
            old(session).state != SessionState::WaitCmd && !valid_utf8(self.name()) ==> {
                &&& r == Err::<Reply, FtpError>(FtpError::InvalidUtf8)
                &&& *final(session) == *old(session)
            },
            old(session).state != SessionState::WaitCmd && valid_utf8(self.name()) ==> {
                &&& r matches Ok(rep) && rep.is_single(ReplyCode::NeedPassword, "Password Required"@)
                &&& final(session).username matches Some(u) && u@ == decode_utf8(self.name())
                &&& final(session).state == SessionState::WaitPass
                &&& final(session).cwd == old(session).cwd
                &&& final(session).rename_from == old(session).rename_from
                &&& final(session).data_channels == old(session).data_channels
            },
    {
        match session.state {
            SessionState::New | SessionState::WaitPass => {
                match text_of_utf8(&self.username) {
                    Some(user) => {
                        session.username = Some(user);
                        session.state = SessionState::WaitPass;
                        Ok(Reply::new(ReplyCode::NeedPassword, "Password Required"))
                    },
                    None => Err(FtpError::InvalidUtf8),
                }
            },
            SessionState::WaitCmd => Ok(
                Reply::new(ReplyCode::BadCommandSequence, "Please create a new connection to switch user"),
            ),
        }
    }
}

} // verus!
