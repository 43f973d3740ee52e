//! The Passive (`PASV`) command.
//!
//! The caller drives the negotiation: it binds a listener on each candidate
//! that `PasvNegotiation` names and reports back, until a listener is bound
//! or the attempt budget is spent.

use rand::Rng;
use vstd::prelude::*;
use vstd::string::*;

use crate::reply::{Reply, ReplyCode};
use crate::session::Session;

verus! {

/// How many candidates one negotiation tries before giving up.
pub const BIND_RETRIES: u8 = 10;

/// Relies on rand's `thread_rng` and `Rng::gen_range(low, high)`: a value in
/// `[low, high)`; it panics when `low >= high`, hence `n > 0`.
#[verifier::external_body]
fn random_below(n: usize) -> (r: usize)
    requires
        n > 0,
    ensures
        r < n,
{
    rand::thread_rng().gen_range(0, n)
}

/// The text of one decimal digit.
pub open spec fn digit_text(d: nat) -> Seq<char> {
    if d == 0 {
        "0"@
    } else if d == 1 {
        "1"@
    } else if d == 2 {
        "2"@
    } else if d == 3 {
        "3"@
    } else if d == 4 {
        "4"@
    } else if d == 5 {
        "5"@
    } else if d == 6 {
        "6"@
    } else if d == 7 {
        "7"@
    } else if d == 8 {
        "8"@
    } else {
        "9"@
    }
}

/// `n` written in decimal, without leading zeros.
pub open spec fn decimal(n: nat) -> Seq<char>
    decreases n,
{
    if n < 10 {
        digit_text(n)
    } else {
        decimal(n / 10) + digit_text(n % 10)
    }
}

/// The high byte of a port, as the reply gives it.
pub open spec fn port_hi(port: u16) -> nat {
    port as nat / 256
}

/// The low byte of a port, as the reply gives it.
pub open spec fn port_lo(port: u16) -> nat {
    port as nat % 256
}

/// The reply text announcing `host` and `port`.
pub open spec fn passive_text(host: Seq<u8>, port: u16) -> Seq<char> {
    "Entering Passive Mode ("@ + decimal(host[0] as nat) + ","@ + decimal(host[1] as nat) + ","@
        + decimal(host[2] as nat) + ","@ + decimal(host[3] as nat) + ","@ + decimal(port_hi(port))
        + ","@ + decimal(port_lo(port)) + ")"@
}

/// The two numbers a reply gives for a port recombine into that port.
pub proof fn lemma_passive_port_split(port: u16)
    ensures
        port_hi(port) < 256,
        port_lo(port) < 256,
        port_hi(port) * 256 + port_lo(port) == port,
{
}

fn push_digit(s: &mut String, d: u16)
    requires
        d < 10,
    ensures
        final(s)@ == old(s)@ + digit_text(d as nat),
{
    if d == 0 {
        s.append("0");
    } else if d == 1 {
        s.append("1");
    } else if d == 2 {
        s.append("2");
    } else if d == 3 {
        s.append("3");
    } else if d == 4 {
        s.append("4");
    } else if d == 5 {
        s.append("5");
    } else if d == 6 {
        s.append("6");
    } else if d == 7 {
        s.append("7");
    } else if d == 8 {
        s.append("8");
    } else {
        s.append("9");
    }
}

fn push_decimal(s: &mut String, n: u16)
    ensures
        final(s)@ == old(s)@ + decimal(n as nat),
    decreases n,
{
    if n >= 10 {
        push_decimal(s, n / 10);
        push_digit(s, n % 10);
        proof {
            assert(final(s)@ =~= old(s)@ + decimal(n as nat)) by {
                assert(decimal(n as nat) == decimal((n / 10) as nat) + digit_text((n % 10) as nat));
            }
        }
    } else {
        push_digit(s, n);
    }
}

/// The reply text announcing `host` and `port`.
pub fn passive_reply_text(host: [u8; 4], port: u16) -> (r: String)
    ensures
        r@ == passive_text(host@, port),
{
    let p1: u16 = port >> 8;
    proof {
        assert(port >> 8 == port / 256 && port - (port >> 8) * 256 == port % 256) by (bit_vector);
    }
    let p2: u16 = port - p1 * 256;
    let mut s = "Entering Passive Mode (".to_owned();
    push_decimal(&mut s, host[0] as u16);
    s.append(",");
    push_decimal(&mut s, host[1] as u16);
    s.append(",");
    push_decimal(&mut s, host[2] as u16);
    s.append(",");
    push_decimal(&mut s, host[3] as u16);
    s.append(",");
    push_decimal(&mut s, p1);
    s.append(",");
    push_decimal(&mut s, p2);
    s.append(")");
    proof {
        assert(s@ =~= passive_text(host@, port));
    }
    s
}

/// What the caller does next.
#[derive(Debug)]
pub enum PasvAction {
    /// Bind a listener on the passive address at this index of the pool.
    TryBind { candidate: usize },
    /// Keep the bound listener, hand its first connection to the session's
    /// data transfer, and send the reply.
    Listen { reply: Reply },
    /// No listener could be bound: send the reply and stop.
    GiveUp { reply: Reply },
}

/// What the caller reports after an attempt to bind.
#[derive(Clone, Copy, Debug, PartialEq, Eq, Structural)]
pub enum PasvEvent {
    /// A listener is bound on `port`, and the caller made a fresh pair of
    /// data-command and abort channels, known by `channels`.
    Bound { port: u16, channels: u64 },
    BindFailed,
}

/// The reply when the attempt budget is spent.
pub open spec fn give_up_text() -> Seq<char> {
    "No data connection established"@
}

/// The candidates handed out once a failure is reported, when `a` had been.
pub open spec fn attempts_after_failure(a: nat) -> nat {
    if a < BIND_RETRIES {
        a + 1
    } else {
        a
    }
}

/// The candidates handed out once `k` failures in a row are reported,
/// from the start of a negotiation.
pub open spec fn attempts_after_failures(k: nat) -> nat
    decreases k,
{
    if k == 0 {
        1
    } else {
        attempts_after_failure(attempts_after_failures((k - 1) as nat))
    }
}

/// A negotiation answered only with failures tries `BIND_RETRIES` candidates
/// in all: after `k` failures it has handed out `k + 1` of them, up to the
/// budget, and a failure gives up exactly when it is the `BIND_RETRIES`-th
/// or a later one, that is, when the budget was already spent.
pub proof fn lemma_bind_budget(k: nat)
    ensures
        attempts_after_failures(k) == if k + 1 < BIND_RETRIES {
            k + 1
        } else {
            BIND_RETRIES as nat
        },
        attempts_after_failures(k) >= BIND_RETRIES <==> k + 1 >= BIND_RETRIES,
    decreases k,
{
    if k > 0 {
        lemma_bind_budget((k - 1) as nat);
    }
}

/// One passive-mode negotiation in progress.
#[derive(Debug)]
pub struct PasvNegotiation {
    host: [u8; 4],
    pool_size: usize,
    attempts: u8,
}

impl PasvNegotiation {
    /// The externally visible host that the reply announces.
    pub closed spec fn host(&self) -> Seq<u8> {
        self.host@
    }

    /// The number of passive addresses to pick from.
    pub closed spec fn pool_size(&self) -> nat {
        self.pool_size as nat
    }

    /// How many candidates have been handed out.
    pub closed spec fn attempts(&self) -> nat {
        self.attempts as nat
    }

    pub closed spec fn wf(&self) -> bool {
        &&& self.pool_size > 0
        &&& 1 <= self.attempts <= BIND_RETRIES
    }

    /// Takes the caller's report of the last attempt. A bound listener ends
    /// the negotiation: the session gets the new channel pair, replacing any
    /// earlier one, and the reply announces the host and the bound port.
    /// A failure asks for another random candidate while the budget lasts,
    /// and otherwise gives up with the session untouched.
    pub fn step(&mut self, event: PasvEvent, session: &mut Session) -> (r: PasvAction)
        requires
            old(self).wf(),
        ensures
            final(self).wf(),
            final(self).host() == old(self).host(),
            final(self).pool_size() == old(self).pool_size(),
            match event {
                PasvEvent::Bound { port, channels } => {
                    &&& r matches PasvAction::Listen { reply } && reply.is_single(
                        ReplyCode::EnteringPassiveMode,
                        passive_text(old(self).host(), port),
                    )
                    &&& final(session).data_channels == Some(channels)
                    &&& final(session).state == old(session).state
                    &&& final(session).username == old(session).username
                    &&& final(session).cwd == old(session).cwd
                    &&& final(session).rename_from == old(session).rename_from
                    &&& final(self).attempts() == old(self).attempts()
                },
                PasvEvent::BindFailed => {
                    &&& *final(session) == *old(session)
                    &&& final(self).attempts() == attempts_after_failure(old(self).attempts())
                    &&& old(self).attempts() < BIND_RETRIES ==> {
                        &&& r matches PasvAction::TryBind { candidate } && candidate
                            < old(self).pool_size()
                        &&& final(self).attempts() == old(self).attempts() + 1
                    }
                    &&& old(self).attempts() >= BIND_RETRIES ==> {
                        &&& r matches PasvAction::GiveUp { reply } && reply.is_single(
                            ReplyCode::CantOpenDataConnection,
                            give_up_text(),
                        )
                        &&& final(self).attempts() == old(self).attempts()
                    }
                },
            },
    {
        match event {
            PasvEvent::Bound { port, channels } => {
                session.data_channels = Some(channels);
                let text = passive_reply_text(self.host, port);
                PasvAction::Listen { reply: Reply::new_with_string(ReplyCode::EnteringPassiveMode, text) }
            },
            PasvEvent::BindFailed => {
                if self.attempts < BIND_RETRIES {
                    self.attempts = self.attempts + 1;
                    PasvAction::TryBind { candidate: random_below(self.pool_size) }
                } else {
                    PasvAction::GiveUp {
                        reply: Reply::new(
                            ReplyCode::CantOpenDataConnection,
                            "No data connection established",
                        ),
                    }
                }
            },
        }
    }
}

pub struct Pasv;

impl Pasv {
    /// Starts a negotiation that announces `host`, over a pool of `pool_size`
    /// passive addresses: the first random candidate, or, for an empty
    /// pool, the reply that no listener can be had.
    pub fn execute(&self, host: [u8; 4], pool_size: usize) -> (r: (PasvNegotiation, PasvAction))
        ensures
            pool_size == 0 ==> {
                r.1 matches PasvAction::GiveUp { reply } && reply.is_single(
                    ReplyCode::CantOpenDataConnection,
                    give_up_text(),
                )
            },
            pool_size > 0 ==> {
                &&& r.0.wf()
                &&& r.0.host() == host@
                &&& r.0.pool_size() == pool_size
                &&& r.0.attempts() == 1
                &&& r.1 matches PasvAction::TryBind { candidate } && candidate < pool_size
            },
    {
        let negotiation = PasvNegotiation { host, pool_size, attempts: 1 };
        if pool_size == 0 {
            let reply = Reply::new(ReplyCode::CantOpenDataConnection, "No data connection established");
            return (negotiation, PasvAction::GiveUp { reply });
        }
        let candidate = random_below(pool_size);
        (negotiation, PasvAction::TryBind { candidate })
    }
}

} // verus!
