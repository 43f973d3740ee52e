//! The Representation Type (`TYPE`) command: transfers are always binary.

use vstd::prelude::*;

use crate::reply::{Reply, ReplyCode};

verus! {

pub struct Type;

impl Type {
    /// Acknowledges any requested type.
    pub fn execute(&self) -> (r: Reply)
        ensures
            r.is_single(ReplyCode::CommandOkay, "Always in binary mode"@),
    {
        Reply::new(ReplyCode::CommandOkay, "Always in binary mode")
    }
}

} // verus!
