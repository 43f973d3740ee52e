//! The Account (`ACCT`) command: this server never gates login on an account.

use vstd::prelude::*;

use crate::reply::{Reply, ReplyCode};

verus! {

pub struct Acct;

impl Acct {
    /// Always rejects, whatever the session's state.
    pub fn execute(&self) -> (r: Reply)
        ensures
            r.is_single(ReplyCode::NotLoggedIn, "Rejected"@),
    {
        Reply::new(ReplyCode::NotLoggedIn, "Rejected")
    }
}

} // verus!
