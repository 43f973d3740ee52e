//! Command-processing core of an FTP server: the per-connection session
//! state machine, the command handlers and passive-mode negotiation.

pub mod reply;
pub mod path;
pub mod session;
pub mod acct;
pub mod cwd;
pub mod rnfr;
pub mod type_;
pub mod user;
pub mod text_order;
pub mod feat;
pub mod pasv;
