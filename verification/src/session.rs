//! The per-connection session state machine: liveness tracking, message
//! dispatch, heartbeat policy, and orderly shutdown.
//!
//! The transport layer drives a session with two calls. Every inbound event
//! goes through [`MyWebSocket::handle`], in arrival order, one at a time; a
//! recurring timer with period [`HEARTBEAT_INTERVAL_MS`] calls
//! [`MyWebSocket::heartbeat`]. Both return a [`Reaction`] telling the
//! transport what single frame to write, if any, and whether to begin
//! shutting the connection down; [`MyWebSocket::finish`] then records that
//! shutdown is complete. Times are milliseconds read from one monotonic
//! clock, so a caller never passes a time earlier than the session's stored
//! `last_heartbeat`.

use crate::frame::{Frame, Reaction};
use vstd::prelude::*;

verus! {

/// How often the heartbeat timer fires, in milliseconds.
pub const HEARTBEAT_INTERVAL_MS: u64 = 5000;

/// How long the peer may go without liveness evidence (a ping or a pong)
/// before the session is closed at the next timer tick, in milliseconds.
pub const CLIENT_TIMEOUT_MS: u64 = 10000;

/// Where a session stands in its lifetime. `Active` is initial; a close
/// cause moves the session to `Closing`; once the final outbound write, if
/// any, is done and the timer and inbound stream are released, the session
/// is `Closed`. No transition leaves `Closed`.
#[derive(Debug, Clone, Copy, PartialEq, Eq, Structural)]
pub enum Phase {
    Active,
    Closing,
    Closed,
}

/// The state a session owns for one accepted connection.
#[derive(Debug, Clone, Copy, PartialEq, Eq, Structural)]
pub struct MyWebSocket {
    /// When the most recent liveness evidence from the peer arrived: a
    /// received ping, a received pong, or the session's creation.
    pub last_heartbeat: u64,
    /// Where the session stands in its lifetime.
    pub phase: Phase,
}

/// Whether an inbound event counts as liveness evidence from the peer.
/// Only ping and pong frames do; ordinary data traffic deliberately does
/// not, so a peer that merely keeps sending data still times out.
pub open spec fn is_liveness(msg: Option<Frame>) -> bool {
    match msg {
        Some(Frame::Ping(_)) => true,
        Some(Frame::Pong(_)) => true,
        _ => false,
    }
}

/// Whether an inbound event is a data frame: echoed back, but no liveness
/// evidence.
pub open spec fn is_data(msg: Option<Frame>) -> bool {
    match msg {
        Some(Frame::Text(_)) => true,
        Some(Frame::Binary(_)) => true,
        _ => false,
    }
}

/// Whether an inbound event makes an active session shut down: a close
/// handshake from the peer, or `None`, which stands for a transport-level
/// error, a malformed frame, or an unrecognized frame kind.
pub open spec fn is_close_cause(msg: Option<Frame>) -> bool {
    match msg {
        Some(Frame::Close(_)) => true,
        None => true,
        _ => false,
    }
}

/// The state a session moves to on one inbound event handled at time `now`.
/// A session that has left `Active` no longer changes.
pub open spec fn step_state(s: MyWebSocket, msg: Option<Frame>, now: u64) -> MyWebSocket {
    if s.phase != Phase::Active {
        s
    } else if is_liveness(msg) {
        MyWebSocket { last_heartbeat: now, ..s }
    } else if is_close_cause(msg) {
        MyWebSocket { phase: Phase::Closing, ..s }
    } else {
        s
    }
}

/// The state a session moves to when the heartbeat timer fires at time
/// `now`: an active session whose liveness evidence is older than
/// `CLIENT_TIMEOUT_MS` starts closing; any other session is unchanged.
pub open spec fn tick_state(s: MyWebSocket, now: u64) -> MyWebSocket {
    if s.phase == Phase::Active && now - s.last_heartbeat > CLIENT_TIMEOUT_MS {
        MyWebSocket { phase: Phase::Closing, ..s }
    } else {
        s
    }
}

/// The state after a whole sequence of inbound events, the `i`th handled at
/// time `times[i]`.
pub open spec fn run_state(s: MyWebSocket, msgs: Seq<Option<Frame>>, times: Seq<u64>) -> MyWebSocket
    decreases msgs.len(),
{
    if msgs.len() == 0 {
        s
    } else {
        run_state(step_state(s, msgs[0], times[0]), msgs.drop_first(), times.drop_first())
    }
}

impl MyWebSocket {
    /// Creates the session for a just-accepted connection, counting the
    /// acceptance itself as the first liveness evidence.
    pub fn new(now: u64) -> (s: Self)
        ensures
            s.last_heartbeat == now,
            s.phase == Phase::Active,
    {
        MyWebSocket { last_heartbeat: now, phase: Phase::Active }
    }

    /// Reacts to one inbound event at time `now`, exactly as long as the
    /// session is active: a ping refreshes liveness and is answered by one
    /// pong carrying the same payload; a pong refreshes liveness silently;
    /// a text payload is echoed with the fixed `"echo: "` prefix and a
    /// binary payload verbatim, neither counting as liveness; a close frame
    /// is echoed with its reason and ends the session; a transport error or
    /// unrecognized frame (`None`) ends the session with no reply.
    pub fn handle(&mut self, msg: Option<Frame>, now: u64) -> (r: Reaction)
        requires
            now >= old(self).last_heartbeat,
        ensures
            *final(self) == step_state(*old(self), msg, now),
            r.terminate == (old(self).phase == Phase::Active && is_close_cause(msg)),
            old(self).phase != Phase::Active ==> r.reply is None,
            old(self).phase == Phase::Active ==> match msg {
                Some(Frame::Ping(p)) => r.reply == Some(Frame::Pong(p)),
                Some(Frame::Pong(_)) => r.reply is None,
                Some(Frame::Text(t)) => (r.reply matches Some(Frame::Text(e)) && e@ == "echo: "@ + t@),
                Some(Frame::Binary(b)) => r.reply == Some(Frame::Binary(b)),
                Some(Frame::Close(reason)) => r.reply == Some(Frame::Close(reason)),
                None => r.reply is None,
            },
    {
        if self.phase != Phase::Active {
            return Reaction { reply: None, terminate: false };
        }
        match msg {
            Some(Frame::Ping(payload)) => {
                self.last_heartbeat = now;
                Reaction { reply: Some(Frame::Pong(payload)), terminate: false }
            },
            Some(Frame::Pong(_)) => {
                self.last_heartbeat = now;
                Reaction { reply: None, terminate: false }
            },
            Some(Frame::Text(text)) => {
                let echoed = String::from_str("echo: ").concat(text.as_str());
                Reaction { reply: Some(Frame::Text(echoed)), terminate: false }
            },
            Some(Frame::Binary(payload)) => {
                Reaction { reply: Some(Frame::Binary(payload)), terminate: false }
            },
            Some(Frame::Close(reason)) => {
                self.phase = Phase::Closing;
                Reaction { reply: Some(Frame::Close(reason)), terminate: true }
            },
            None => {
                self.phase = Phase::Closing;
                Reaction { reply: None, terminate: true }
            },
        }
    }

    /// One firing of the recurring heartbeat timer at time `now`. An active
    /// session whose last liveness evidence is strictly older than
    /// `CLIENT_TIMEOUT_MS` starts closing and sends nothing this cycle; an
    /// active session at or within the timeout stays open and sends one
    /// ping with an empty payload; a session no longer active does nothing.
    pub fn heartbeat(&mut self, now: u64) -> (r: Reaction)
        requires
            now >= old(self).last_heartbeat,
        ensures
            *final(self) == tick_state(*old(self), now),
            r.terminate == (old(self).phase == Phase::Active
                && now - old(self).last_heartbeat > CLIENT_TIMEOUT_MS),
            (old(self).phase == Phase::Active
                && now - old(self).last_heartbeat <= CLIENT_TIMEOUT_MS)
                ==> (r.reply matches Some(Frame::Ping(p)) && p@ == Seq::<u8>::empty()),
            !(old(self).phase == Phase::Active
                && now - old(self).last_heartbeat <= CLIENT_TIMEOUT_MS)
                ==> r.reply is None,
    {
        if self.phase != Phase::Active {
            return Reaction { reply: None, terminate: false };
        }
        if now - self.last_heartbeat > CLIENT_TIMEOUT_MS {
            self.phase = Phase::Closing;
            Reaction { reply: None, terminate: true }
        } else {
            Reaction { reply: Some(Frame::Ping(Vec::new())), terminate: false }
        }
    }

    /// Records that termination finished: the final outbound write, if any,
    /// has been made and the timer and inbound stream are released. Only a
    /// session already shutting down can finish, and finishing again
    /// changes nothing.
    pub fn finish(&mut self)
        requires
            old(self).phase != Phase::Active,
        ensures
            *final(self) == (MyWebSocket { phase: Phase::Closed, ..*old(self) }),
    {
        self.phase = Phase::Closed;
    }
}

/// The liveness invariant: under a monotonic clock `last_heartbeat` never
/// decreases — an inbound event either leaves it alone or moves it forward
/// to the time of fresh ping/pong evidence, and timer ticks never touch it.
pub proof fn lemma_last_heartbeat_monotonic(s: MyWebSocket, msg: Option<Frame>, now: u64)
    requires
        now >= s.last_heartbeat,
    ensures
        step_state(s, msg, now).last_heartbeat >= s.last_heartbeat,
        tick_state(s, now).last_heartbeat == s.last_heartbeat,
{
}

/// Data frames are not liveness evidence: a session that receives only text
/// and binary frames keeps its whole state, `last_heartbeat` included,
/// exactly where it was, so once more than `CLIENT_TIMEOUT_MS` has passed
/// since that timestamp, the next timer tick closes the session even though
/// data kept flowing.
pub proof fn lemma_data_traffic_does_not_keep_alive(
    s: MyWebSocket,
    msgs: Seq<Option<Frame>>,
    times: Seq<u64>,
    now: u64,
)
    requires
        s.phase == Phase::Active,
        forall|i: int| 0 <= i < msgs.len() ==> is_data(#[trigger] msgs[i]),
        now - s.last_heartbeat > CLIENT_TIMEOUT_MS,
    ensures
        run_state(s, msgs, times) == s,
        tick_state(run_state(s, msgs, times), now).phase == Phase::Closing,
    decreases msgs.len(),
{
    if msgs.len() > 0 {
        assert(is_data(msgs[0]));
        assert(step_state(s, msgs[0], times[0]) == s);
        assert(forall|i: int|
            0 <= i < msgs.drop_first().len() ==> is_data(#[trigger] msgs.drop_first()[i]));
        lemma_data_traffic_does_not_keep_alive(s, msgs.drop_first(), times.drop_first(), now);
    }
}

/// Termination is idempotent: the first close cause moves an active session
/// to `Closing`, and any second cause racing with it — another close frame,
/// a protocol error, or a timed-out timer tick — changes nothing further,
/// so there is exactly one terminal transition.
pub proof fn lemma_termination_idempotent(
    s: MyWebSocket,
    first: Option<Frame>,
    t1: u64,
    second: Option<Frame>,
    t2: u64,
    tick: u64,
)
    requires
        s.phase == Phase::Active,
        is_close_cause(first),
    ensures
        step_state(s, first, t1).phase == Phase::Closing,
        step_state(step_state(s, first, t1), second, t2) == step_state(s, first, t1),
        tick_state(step_state(s, first, t1), tick) == step_state(s, first, t1),
{
}

/// A peer that answers pings promptly keeps the session alive: a timer tick
/// that follows liveness evidence no older than `CLIENT_TIMEOUT_MS` finds
/// the session active, leaves its state unchanged, and so the heartbeat
/// exchange can repeat indefinitely.
pub proof fn lemma_prompt_pong_keeps_alive(s: MyWebSocket, msg: Option<Frame>, t: u64, now: u64)
    requires
        s.phase == Phase::Active,
        is_liveness(msg),
        t <= now,
        now - t <= CLIENT_TIMEOUT_MS,
    ensures
        step_state(s, msg, t).phase == Phase::Active,
        tick_state(step_state(s, msg, t), now) == step_state(s, msg, t),
{
}

} // verus!
