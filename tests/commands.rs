use ftpcore::acct::Acct;
use ftpcore::cwd::Cwd;
use ftpcore::feat::{Feat, FEATURE_RESTART};
use ftpcore::pasv::{passive_reply_text, Pasv, PasvAction, PasvEvent, BIND_RETRIES};
use ftpcore::path::FsPath;
use ftpcore::reply::{Reply, ReplyCode};
use ftpcore::rnfr::Rnfr;
use ftpcore::session::{ErrorKind, FtpError, InternalMsg, Session, SessionState, StorageError};
use ftpcore::text_order::{sort_texts, text_le_exec};
use ftpcore::type_::Type;
use ftpcore::user::User;

fn single(r: &Reply) -> (ReplyCode, String) {
    match r {
        Reply::CodeAndMsg { code, msg } => (*code, msg.clone()),
        other => panic!("not a single-line reply: {:?}", other),
    }
}

fn multi(r: &Reply) -> (ReplyCode, Vec<String>) {
    match r {
        Reply::MultiLine { code, lines } => (*code, lines.clone()),
        other => panic!("not a multi-line reply: {:?}", other),
    }
}

fn session_at(cwd: &str) -> Session {
    let mut s = Session::new();
    s.cwd = FsPath::from_str(cwd);
    s
}

#[test]
fn reply_code_numbers() {
    assert_eq!(ReplyCode::CommandOkay.number(), 200);
    assert_eq!(ReplyCode::SystemStatus.number(), 211);
    assert_eq!(ReplyCode::EnteringPassiveMode.number(), 227);
    assert_eq!(ReplyCode::NeedPassword.number(), 331);
    assert_eq!(ReplyCode::FileActionPending.number(), 350);
    assert_eq!(ReplyCode::CantOpenDataConnection.number(), 425);
    assert_eq!(ReplyCode::NotLoggedIn.number(), 530);
    assert_eq!(ReplyCode::BadCommandSequence.number(), 503);
}

#[test]
fn new_session_starts_at_root() {
    let s = Session::new();
    assert_eq!(s.state, SessionState::New);
    assert!(s.username.is_none());
    assert_eq!(s.cwd.as_str(), "/");
    assert!(s.rename_from.is_none());
    assert!(s.data_channels.is_none());
}

#[test]
fn path_join_relative_and_absolute() {
    let a = FsPath::from_str("/a");
    assert_eq!(a.join(&FsPath::from_str("b")).as_str(), "/a/b");
    assert_eq!(a.join(&FsPath::from_str("/x/y")).as_str(), "/x/y");
    assert_eq!(FsPath::from_str("/a/").join(&FsPath::from_str("b")).as_str(), "/a/b");
    assert_eq!(FsPath::from_str("").join(&FsPath::from_str("b")).as_str(), "b");
    assert_eq!(FsPath::from_str("/").join(&FsPath::from_str("b")).as_str(), "/b");
    let mut p = FsPath::from_str("/a");
    p.push(&FsPath::from_str("c"));
    assert_eq!(p.as_str(), "/a/c");
}

#[test]
fn acct_always_rejects() {
    let (code, msg) = single(&Acct.execute());
    assert_eq!(code, ReplyCode::NotLoggedIn);
    assert_eq!(msg, "Rejected");
}

#[test]
fn cwd_commits_checked_path_when_another_is_in_flight() {
    let mut s = session_at("/c0");
    let first = Cwd::new(FsPath::from_str("a"));
    let second = Cwd::new(FsPath::from_str("b"));
    let (_, t1) = first.execute(&s);
    let (_, t2) = second.execute(&s);
    Cwd::complete(&mut s, t1, Ok(()));
    assert_eq!(s.cwd.as_str(), "/c0/a");
    Cwd::complete(&mut s, t2, Ok(()));
    assert_eq!(s.cwd.as_str(), "/c0/b");
}

#[test]
fn feat_every_capability_line_is_indented() {
    for tls in [false, true] {
        for features in [0u32, FEATURE_RESTART] {
            let (_, lines) = multi(&Feat.execute(tls, features));
            assert!(lines[1..lines.len() - 1].iter().all(|l| l.starts_with(' ')));
            assert!(lines.iter().any(|l| l == " UTF8"));
        }
    }
}

#[test]
fn type_always_okay() {
    let (code, msg) = single(&Type.execute());
    assert_eq!(code, ReplyCode::CommandOkay);
    assert_eq!(msg, "Always in binary mode");
}

const MLST: &str = " MLST modify*;perm*;size*;type*;unique*;UNIX.group*;UNIX.mode*;UNIX.owner*;";

#[test]
fn feat_plain() {
    let (code, lines) = multi(&Feat.execute(false, 0));
    assert_eq!(code, ReplyCode::SystemStatus);
    assert_eq!(lines, vec!["Extensions supported:", " MDTM", MLST, " SIZE", " UTF8", "END"]);
}

#[test]
fn feat_with_tls_and_restart() {
    let (_, lines) = multi(&Feat.execute(true, FEATURE_RESTART));
    assert_eq!(
        lines,
        vec![
            "Extensions supported:",
            " AUTH TLS",
            " MDTM",
            MLST,
            " PBSZ",
            " PROT",
            " REST STREAM",
            " SIZE",
            " UTF8",
            "END"
        ]
    );
}

#[test]
fn feat_restart_bit_only() {
    let (_, lines) = multi(&Feat.execute(false, 2));
    assert!(!lines.iter().any(|l| l == " REST STREAM"));
    let (_, lines) = multi(&Feat.execute(false, 3));
    assert!(lines.iter().any(|l| l == " REST STREAM"));
    assert!(!lines.iter().any(|l| l == " AUTH TLS" || l == " PBSZ" || l == " PROT"));
}

#[test]
fn feat_sorted_and_repeatable() {
    for tls in [false, true] {
        for features in [0u32, FEATURE_RESTART] {
            let (_, a) = multi(&Feat.execute(tls, features));
            let (_, b) = multi(&Feat.execute(tls, features));
            assert_eq!(a, b);
            let middle = &a[1..a.len() - 1];
            let mut sorted = middle.to_vec();
            sorted.sort();
            assert_eq!(middle, &sorted[..]);
            assert_eq!(a.iter().any(|l| l == " AUTH TLS"), tls);
        }
    }
}

#[test]
fn sort_texts_orders_lines() {
    let v = vec!["b".to_string(), "ab".to_string(), "a".to_string(), " z".to_string(), "b".to_string()];
    assert_eq!(sort_texts(v), vec![" z", "a", "ab", "b", "b"]);
    assert!(text_le_exec("a", "ab"));
    assert!(!text_le_exec("ab", "a"));
    assert!(text_le_exec("", ""));
    assert!(text_le_exec(" Z", "U"));
}

#[test]
fn pasv_reply_encodes_port() {
    let text = passive_reply_text([127, 0, 0, 1], 2121);
    assert_eq!(text, "Entering Passive Mode (127,0,0,1,8,73)");
    assert_eq!(8 * 256 + 73, 2121);
    assert_eq!(passive_reply_text([10, 20, 30, 255], 0), "Entering Passive Mode (10,20,30,255,0,0)");
    assert_eq!(
        passive_reply_text([0, 0, 0, 0], 65535),
        "Entering Passive Mode (0,0,0,0,255,255)"
    );
}

#[test]
fn pasv_bound_installs_channels() {
    let mut s = Session::new();
    let (mut neg, action) = Pasv.execute([192, 168, 1, 2], 1);
    match action {
        PasvAction::TryBind { candidate } => assert_eq!(candidate, 0),
        other => panic!("unexpected {:?}", other),
    }
    match neg.step(PasvEvent::Bound { port: 50000, channels: 7 }, &mut s) {
        PasvAction::Listen { reply } => {
            let (code, msg) = single(&reply);
            assert_eq!(code, ReplyCode::EnteringPassiveMode);
            assert_eq!(msg, "Entering Passive Mode (192,168,1,2,195,80)");
            assert_eq!(195 * 256 + 80, 50000);
        }
        other => panic!("unexpected {:?}", other),
    }
    assert_eq!(s.data_channels, Some(7));
}

#[test]
fn pasv_second_negotiation_replaces_channels() {
    let mut s = Session::new();
    let (mut neg, _) = Pasv.execute([1, 2, 3, 4], 4);
    neg.step(PasvEvent::Bound { port: 2000, channels: 1 }, &mut s);
    let (mut neg, _) = Pasv.execute([1, 2, 3, 4], 4);
    neg.step(PasvEvent::Bound { port: 2001, channels: 2 }, &mut s);
    assert_eq!(s.data_channels, Some(2));
}

#[test]
fn pasv_gives_up_after_budget() {
    let mut s = Session::new();
    let (mut neg, action) = Pasv.execute([127, 0, 0, 1], 3);
    let mut tried = 0;
    let mut next = action;
    loop {
        match next {
            PasvAction::TryBind { candidate } => {
                assert!(candidate < 3);
                tried += 1;
                next = neg.step(PasvEvent::BindFailed, &mut s);
            }
            PasvAction::GiveUp { reply } => {
                let (code, msg) = single(&reply);
                assert_eq!(code, ReplyCode::CantOpenDataConnection);
                assert_eq!(msg, "No data connection established");
                break;
            }
            PasvAction::Listen { .. } => panic!("no listener was bound"),
        }
    }
    assert_eq!(tried, BIND_RETRIES as usize);
    assert_eq!(tried, 10);
    assert!(s.data_channels.is_none());
}

#[test]
fn pasv_empty_pool() {
    let (_, action) = Pasv.execute([127, 0, 0, 1], 0);
    match action {
        PasvAction::GiveUp { reply } => {
            assert_eq!(single(&reply).0, ReplyCode::CantOpenDataConnection)
        }
        other => panic!("unexpected {:?}", other),
    }
}

#[test]
fn rnfr_stages_and_overwrites() {
    let mut s = session_at("/a");
    let (code, msg) = single(&Rnfr::new(FsPath::from_str("x")).execute(&mut s));
    assert_eq!(code, ReplyCode::FileActionPending);
    assert_eq!(msg, "Tell me, what would you like the new name to be?");
    assert_eq!(s.rename_from.as_ref().unwrap().as_str(), "/a/x");
    Rnfr::new(FsPath::from_str("y")).execute(&mut s);
    assert_eq!(s.rename_from.as_ref().unwrap().as_str(), "/a/y");
    assert_eq!(s.cwd.as_str(), "/a");
}

#[test]
fn cwd_commits_on_success() {
    let mut s = session_at("/a");
    let cmd = Cwd::new(FsPath::from_str("b"));
    let (reply, target) = cmd.execute(&s);
    assert!(matches!(reply, Reply::Deferred));
    assert_eq!(target.as_str(), "/a/b");
    assert_eq!(s.cwd.as_str(), "/a");
    assert_eq!(Cwd::complete(&mut s, target, Ok(())), InternalMsg::CwdSuccess);
    assert_eq!(s.cwd.as_str(), "/a/b");
}

#[test]
fn cwd_unchanged_on_failure() {
    let mut s = session_at("/a");
    let cmd = Cwd::new(FsPath::from_str("b"));
    let (_, target) = cmd.execute(&s);
    let err = StorageError { kind: ErrorKind::PermanentFileNotAvailable };
    assert_eq!(Cwd::complete(&mut s, target, Err(err)), InternalMsg::StorageError(err));
    assert_eq!(s.cwd.as_str(), "/a");
}

#[test]
fn user_before_login_waits_for_password() {
    for state in [SessionState::New, SessionState::WaitPass] {
        let mut s = Session::new();
        s.state = state;
        let r = User::new(b"alice".to_vec()).execute(&mut s).unwrap();
        let (code, msg) = single(&r);
        assert_eq!(code, ReplyCode::NeedPassword);
        assert_eq!(msg, "Password Required");
        assert_eq!(s.state, SessionState::WaitPass);
        assert_eq!(s.username.as_deref(), Some("alice"));
    }
}

#[test]
fn user_with_non_ascii_name() {
    let mut s = Session::new();
    User::new("jürgen".as_bytes().to_vec()).execute(&mut s).unwrap();
    assert_eq!(s.username.as_deref(), Some("jürgen"));
}

#[test]
fn user_invalid_utf8_fails() {
    let mut s = Session::new();
    let r = User::new(vec![0x66, 0xff, 0x6f]).execute(&mut s);
    assert_eq!(r.unwrap_err(), FtpError::InvalidUtf8);
    assert_eq!(s.state, SessionState::New);
    assert!(s.username.is_none());
}

#[test]
fn user_after_login_is_refused() {
    let mut s = session_at("/home");
    s.state = SessionState::WaitCmd;
    s.username = Some("bob".to_string());
    let r = User::new(b"eve".to_vec()).execute(&mut s).unwrap();
    let (code, msg) = single(&r);
    assert_eq!(code, ReplyCode::BadCommandSequence);
    assert_eq!(msg, "Please create a new connection to switch user");
    assert_eq!(s.state, SessionState::WaitCmd);
    assert_eq!(s.username.as_deref(), Some("bob"));
    assert_eq!(s.cwd.as_str(), "/home");
    let r = User::new(vec![0xff]).execute(&mut s).unwrap();
    assert_eq!(single(&r).0, ReplyCode::BadCommandSequence);
}
