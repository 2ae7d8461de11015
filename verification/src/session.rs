//! One connection's lifetime: the handshake gate, the frame dispatcher, and
//! the idle-timeout rules, as a state machine from events to commands. The
//! surrounding process owns the transport; it performs each command and
//! hands the next receive outcome back in.

use crate::heartbeat::{spec_is_ping_cmd, spec_pong};
use crate::json::spec_parse_request;
use crate::proxy::{spec_invalid_api_msg, spec_invalid_json_msg, spec_is_ping_probe, spec_opt_view,
    spec_url_of, spec_valid_api, FetchJob, ProxyStep};
use crate::text::str_eq;
use vstd::prelude::*;

verus! {

/// Which protocol a session speaks.
#[derive(Clone, Copy, PartialEq, Eq, Structural, Debug)]
pub enum Variant {
    Proxy,
    Heartbeat,
}

/// Where a session stands: `Open` while the read loop runs, `Closed` once a
/// terminal event has been handled. (Before `Open` the transport is still in
/// the handshake and no session exists yet; the close-frame write on the way
/// out is part of handling the closing event.)
#[derive(Clone, Copy, PartialEq, Eq, Structural, Debug)]
pub enum Phase {
    Open,
    Closed,
}

/// What one watchdog-guarded receive came back with.
pub enum Event {
    /// A text frame.
    Text(String),
    /// A control ping frame with its payload.
    Ping(Vec<u8>),
    /// A close frame from the peer.
    CloseFrame,
    /// Any other frame kind.
    Other,
    /// The stream ended: the peer is gone.
    StreamEnd,
    /// Reading the transport failed.
    ReadError,
    /// No frame arrived within the idle timeout.
    TimedOut,
}

/// What the session asks the transport to do next.
pub enum Command {
    /// Write one text frame.
    Reply(String),
    /// Write one control pong frame.
    Pong(Vec<u8>),
    /// Issue the upstream HTTP call, then write the finished reply.
    Fetch(FetchJob),
    /// Write a close frame: the graceful way out.
    SendClose,
    /// Write nothing.
    Nothing,
}

/// Seconds without a received frame after which a session is closed.
pub const IDLE_TIMEOUT_SECS: u64 = 180;

/// Seconds the upstream HTTP call may take before it counts as failed.
pub const HTTP_TIMEOUT_SECS: u64 = 30;

/// The port the proxy variant listens on.
pub const PROXY_PORT: u16 = 45278;

/// The port the heartbeat variant listens on.
pub const HEARTBEAT_PORT: u16 = 45203;

/// Whether the handshake is accepted: the proxy variant takes any path, the
/// heartbeat variant only `/ws` (anything else is turned away with an HTTP
/// 404 before a session exists).
pub open spec fn spec_handshake_accepts(v: Variant, path: Seq<char>) -> bool {
    match v {
        Variant::Proxy => true,
        Variant::Heartbeat => path == "/ws"@,
    }
}

/// Runtime test for [`spec_handshake_accepts`].
pub fn handshake_accepts(v: &Variant, path: &str) -> (r: bool)
    ensures
        r == spec_handshake_accepts(*v, path@),
{
    match v {
        Variant::Proxy => true,
        Variant::Heartbeat => str_eq(path, "/ws"),
    }
}

/// The dispatcher's whole duty for a proxy text frame, over commands.
pub open spec fn spec_proxy_command_ok(t: Seq<char>, c: Command) -> bool {
    if spec_is_ping_probe(t) {
        c matches Command::Reply(p) && p@ == "pong"@
    } else {
        match spec_parse_request(t) {
            None => c matches Command::Reply(p) && p@ == spec_invalid_json_msg(),
            Some(q) => if !spec_valid_api(q.0) {
                c matches Command::Reply(p) && p@ == spec_invalid_api_msg()
            } else {
                c matches Command::Fetch(j) && j.url@ == spec_url_of(q.0, q.1) && j.api@ == q.0
                    && spec_opt_view(j.id) == q.2
            },
        }
    }
}

/// The dispatcher's whole duty for a heartbeat text frame, over commands.
pub open spec fn spec_heartbeat_command_ok(t: Seq<char>, now_ms: u128, c: Command) -> bool {
    if spec_is_ping_cmd(t) {
        c matches Command::Reply(p) && p@ == spec_pong(now_ms)
    } else {
        c is Nothing
    }
}

/// One dispatcher step: what an open session does with one receive outcome,
/// and whether it stays open.
pub open spec fn spec_step_ok(v: Variant, e: Event, now_ms: u128, c: Command, p: Phase) -> bool {
    match e {
        Event::Text(t) => p is Open && match v {
            Variant::Proxy => spec_proxy_command_ok(t@, c),
            Variant::Heartbeat => spec_heartbeat_command_ok(t@, now_ms, c),
        },
        Event::Ping(d) => p is Open && (c matches Command::Pong(back) && back@ == d@),
        Event::Other => p is Open && c is Nothing,
        Event::CloseFrame => p is Closed && c is Nothing,
        Event::StreamEnd => p is Closed && c is Nothing,
        Event::ReadError => p is Closed && c is Nothing,
        Event::TimedOut => p is Closed && c is SendClose,
    }
}

/// Dispatch one receive outcome for an open session. A timeout is answered
/// with a close frame, never a silent drop; a peer close, stream end or
/// transport error ends the session with no further write; a control ping
/// is echoed as a pong; other non-text frames are ignored; a text frame
/// goes to the variant's protocol handler. `now_ms` is the current epoch
/// time, read by the caller, and only a heartbeat reply depends on it.
pub fn session_step(v: &Variant, e: Event, now_ms: u128) -> (r: (Command, Phase))
    ensures
        spec_step_ok(*v, e, now_ms, r.0, r.1),
{
    match e {
        Event::Text(t) => {
            let c = match v {
                Variant::Proxy => match crate::proxy::proxy_handle_text(t.as_str()) {
                    ProxyStep::Reply(p) => Command::Reply(p),
                    ProxyStep::Fetch(j) => Command::Fetch(j),
                },
                Variant::Heartbeat => match crate::heartbeat::heartbeat_reply(
                    t.as_str(),
                    now_ms,
                ) {
                    Some(p) => Command::Reply(p),
                    None => Command::Nothing,
                },
            };
            (c, Phase::Open)
        },
        Event::Ping(d) => (Command::Pong(d), Phase::Open),
        Event::Other => (Command::Nothing, Phase::Open),
        Event::CloseFrame => (Command::Nothing, Phase::Closed),
        Event::StreamEnd => (Command::Nothing, Phase::Closed),
        Event::ReadError => (Command::Nothing, Phase::Closed),
        Event::TimedOut => (Command::SendClose, Phase::Closed),
    }
}

/// One accepted connection's server side: its protocol and where it stands.
/// Created `Open` after a successful handshake; events may only be fed to an
/// open session, and the first terminal event closes it for good.
pub struct Session {
    pub variant: Variant,
    pub phase: Phase,
}

impl Session {
    /// A fresh session, entered once the handshake succeeded.
    pub fn new(variant: Variant) -> (s: Session)
        ensures
            s.variant == variant,
            s.phase is Open,
    {
        Session { variant, phase: Phase::Open }
    }

    /// Feed one receive outcome to an open session; the returned command is
    /// what the transport must do before the next receive.
    pub fn on_event(&mut self, e: Event, now_ms: u128) -> (c: Command)
        requires
            old(self).phase is Open,
        ensures
            final(self).variant == old(self).variant,
            spec_step_ok(old(self).variant, e, now_ms, c, final(self).phase),
    {
        let (c, p) = session_step(&self.variant, e, now_ms);
        self.phase = p;
        c
    }
}

} // verus!
