//! Replies sent back on the control connection.

use vstd::prelude::*;
use vstd::string::*;

verus! {

/// The reply codes this core produces.
#[derive(Clone, Copy, Debug, PartialEq, Eq, Structural)]
pub enum ReplyCode {
    CommandOkay,
    SystemStatus,
    EnteringPassiveMode,
    NeedPassword,
    FileActionPending,
    CantOpenDataConnection,
    NotLoggedIn,
    BadCommandSequence,
}

impl ReplyCode {
    /// The three-digit number the protocol assigns to the code.
    pub open spec fn spec_number(self) -> u32 {
        match self {
            ReplyCode::CommandOkay => 200,
            ReplyCode::SystemStatus => 211,
            ReplyCode::EnteringPassiveMode => 227,
            ReplyCode::NeedPassword => 331,
            ReplyCode::FileActionPending => 350,
            ReplyCode::CantOpenDataConnection => 425,
            ReplyCode::NotLoggedIn => 530,
            ReplyCode::BadCommandSequence => 503,
        }
    }

    pub fn number(&self) -> (r: u32)
        ensures
            r == self.spec_number(),
            100 <= r < 1000,
    {
        match self {
            ReplyCode::CommandOkay => 200,
            ReplyCode::SystemStatus => 211,
            ReplyCode::EnteringPassiveMode => 227,
            ReplyCode::NeedPassword => 331,
            ReplyCode::FileActionPending => 350,
            ReplyCode::CantOpenDataConnection => 425,
            ReplyCode::NotLoggedIn => 530,
            ReplyCode::BadCommandSequence => 503,
        }
    }
}

/// A reply: a code with one line of text, a code with several lines, or
/// nothing at all when the real answer comes later.
#[derive(Debug, Clone)]
pub enum Reply {
    Deferred,
    CodeAndMsg { code: ReplyCode, msg: String },
    MultiLine { code: ReplyCode, lines: Vec<String> },
}

impl Reply {
    /// The reply is a single line with the given code and text.
    pub open spec fn is_single(self, code: ReplyCode, text: Seq<char>) -> bool {
        match self {
            Reply::CodeAndMsg { code: c, msg } => c == code && msg@ == text,
            _ => false,
        }
    }

    /// The reply is a block of lines with the given code, viewed line by line.
    pub open spec fn is_multi(self, code: ReplyCode, text: Seq<Seq<char>>) -> bool {
        match self {
            Reply::MultiLine { code: c, lines } => c == code && lines_view(lines@) == text,
            _ => false,
        }
    }

    pub fn new(code: ReplyCode, msg: &str) -> (r: Reply)
        ensures
            r.is_single(code, msg@),
    {
        Reply::CodeAndMsg { code, msg: msg.to_owned() }
    }

    pub fn new_with_string(code: ReplyCode, msg: String) -> (r: Reply)
        ensures
            r.is_single(code, msg@),
    {
        Reply::CodeAndMsg { code, msg }
    }

    pub fn new_multiline(code: ReplyCode, lines: Vec<String>) -> (r: Reply)
        ensures
            r.is_multi(code, lines_view(lines@)),
    {
        Reply::MultiLine { code, lines }
    }

    pub fn none() -> (r: Reply)
        ensures
            r is Deferred,
    {
        Reply::Deferred
    }

    /// The code of the reply, if it has one.
    pub fn code(&self) -> (r: Option<ReplyCode>)
        ensures
            r == match *self {
                Reply::Deferred => Option::<ReplyCode>::None,
                Reply::CodeAndMsg { code, .. } => Some(code),
                Reply::MultiLine { code, .. } => Some(code),
            },
    {
        match self {
            Reply::Deferred => None,
            Reply::CodeAndMsg { code, .. } => Some(*code),
            Reply::MultiLine { code, .. } => Some(*code),
        }
    }
}

/// The text of each line.
pub open spec fn lines_view(lines: Seq<String>) -> Seq<Seq<char>> {
    lines.map_values(|s: String| s@)
}

} // verus!
