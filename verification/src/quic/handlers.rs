//! The connection dispatcher: every accepted connection runs as an
//! independent unit through the phases handshake, stream accept, handler;
//! a unit's failure never touches its siblings or the accept loop. The
//! client-side close waits for idleness only up to a bound, and a timeout
//! is not an error.

use crate::error::NetworkError;
use vstd::prelude::*;

verus! {

/// The phase a dispatched connection is in.
#[derive(Clone, Copy, Debug, PartialEq, Eq, Structural)]
pub enum ConnPhase {
    /// Accepted; the handshake has not completed yet.
    Handshaking,
    /// The handshake completed.
    Established,
    /// The first bidirectional stream was accepted.
    StreamOpen,
    /// The caller-supplied handler is running on the stream.
    HandlerRunning,
    /// The handler returned success, or the peer closed benignly.
    Completed,
    /// The handshake, the stream accept or the handler failed.
    Failed,
}

/// What a connection's unit observed next.
#[derive(Clone, Copy, Debug, PartialEq, Eq, Structural)]
pub enum ConnEvent {
    /// The handshake completed.
    HandshakeOk,
    /// The handshake failed.
    HandshakeFailed,
    /// A bidirectional stream was accepted.
    StreamAccepted,
    /// The peer closed the connection while a stream accept was pending:
    /// benign, the connection is done.
    StreamPeerClosed,
    /// The stream accept failed for any other reason.
    StreamFailed,
    /// The handler was invoked on the accepted stream.
    HandlerStarted,
    /// The handler returned success.
    HandlerOk,
    /// The handler returned a failure; it is logged and only this unit
    /// ends.
    HandlerFailed,
}

/// Whether an event can be observed in a phase.
pub open spec fn event_fits(phase: ConnPhase, event: ConnEvent) -> bool {
    match event {
        ConnEvent::HandshakeOk => phase is Handshaking,
        ConnEvent::HandshakeFailed => phase is Handshaking,
        ConnEvent::StreamAccepted => phase is Established,
        ConnEvent::StreamPeerClosed => phase is Established,
        ConnEvent::StreamFailed => phase is Established,
        ConnEvent::HandlerStarted => phase is StreamOpen,
        ConnEvent::HandlerOk => phase is HandlerRunning,
        ConnEvent::HandlerFailed => phase is HandlerRunning,
    }
}

/// Whether an event can be observed in a phase: the executable twin of
/// [`event_fits`], for callers outside the proof that must test before
/// they report an event.
pub fn check_event_fits(phase: ConnPhase, event: ConnEvent) -> (r: bool)
    ensures
        r == event_fits(phase, event),
{
    match event {
        ConnEvent::HandshakeOk => phase == ConnPhase::Handshaking,
        ConnEvent::HandshakeFailed => phase == ConnPhase::Handshaking,
        ConnEvent::StreamAccepted => phase == ConnPhase::Established,
        ConnEvent::StreamPeerClosed => phase == ConnPhase::Established,
        ConnEvent::StreamFailed => phase == ConnPhase::Established,
        ConnEvent::HandlerStarted => phase == ConnPhase::StreamOpen,
        ConnEvent::HandlerOk => phase == ConnPhase::HandlerRunning,
        ConnEvent::HandlerFailed => phase == ConnPhase::HandlerRunning,
    }
}

/// The phase that follows an event.
pub open spec fn conn_step(phase: ConnPhase, event: ConnEvent) -> ConnPhase {
    match event {
        ConnEvent::HandshakeOk => ConnPhase::Established,
        ConnEvent::HandshakeFailed => ConnPhase::Failed,
        ConnEvent::StreamAccepted => ConnPhase::StreamOpen,
        ConnEvent::StreamPeerClosed => ConnPhase::Completed,
        ConnEvent::StreamFailed => ConnPhase::Failed,
        ConnEvent::HandlerStarted => ConnPhase::HandlerRunning,
        ConnEvent::HandlerOk => ConnPhase::Completed,
        ConnEvent::HandlerFailed => ConnPhase::Failed,
    }
}

/// The dispatcher's bookkeeping over one endpoint: whether the accept
/// loop still takes connections, and the phase of every connection
/// dispatched so far.
pub struct Dispatcher {
    /// Whether the accept loop still takes new connections.
    pub accepting: bool,
    /// The phase of each dispatched connection, in accept order.
    pub conns: Vec<ConnPhase>,
}

impl Dispatcher {
    /// A dispatcher over a freshly bound endpoint: accepting, with no
    /// connection yet.
    pub fn new() -> (r: Dispatcher)
        ensures
            r.accepting,
            r.conns@ == Seq::<ConnPhase>::empty(),
    {
        Dispatcher { accepting: true, conns: Vec::new() }
    }

    /// A new connection arrived: it starts handshaking as a fresh
    /// independent unit; nothing else changes.
    pub fn connection_arrived(&mut self) -> (idx: usize)
        requires
            old(self).accepting,
            old(self).conns@.len() < usize::MAX,
        ensures
            idx == old(self).conns@.len(),
            final(self).conns@ == old(self).conns@.push(ConnPhase::Handshaking),
            final(self).accepting,
    {
        let idx = self.conns.len();
        self.conns.push(ConnPhase::Handshaking);
        idx
    }

    /// One connection observed an event. Only that connection's phase
    /// moves: every sibling keeps its phase and the accept loop keeps
    /// accepting, whatever the event was — in particular a failure ends
    /// only its own unit.
    pub fn conn_event(&mut self, idx: usize, event: ConnEvent)
        requires
            idx < old(self).conns@.len(),
            event_fits(old(self).conns@[idx as int], event),
        ensures
            final(self).conns@ == old(self).conns@.update(
                idx as int,
                conn_step(old(self).conns@[idx as int], event),
            ),
            final(self).conns@.len() == old(self).conns@.len(),
            forall|j: int|
                0 <= j < old(self).conns@.len() && j != idx ==> final(self).conns@[j] == old(
                    self,
                ).conns@[j],
            final(self).accepting == old(self).accepting,
    {
        let phase = self.conns[idx];
        let next = match event {
            ConnEvent::HandshakeOk => ConnPhase::Established,
            ConnEvent::HandshakeFailed => ConnPhase::Failed,
            ConnEvent::StreamAccepted => ConnPhase::StreamOpen,
            ConnEvent::StreamPeerClosed => ConnPhase::Completed,
            ConnEvent::StreamFailed => ConnPhase::Failed,
            ConnEvent::HandlerStarted => ConnPhase::HandlerRunning,
            ConnEvent::HandlerOk => ConnPhase::Completed,
            ConnEvent::HandlerFailed => ConnPhase::Failed,
        };
        self.conns.set(idx, next);
    }

    /// The endpoint yields no further connections: the accept loop ends;
    /// already-dispatched units are not cancelled and keep their phases.
    pub fn endpoint_drained(&mut self)
        ensures
            !final(self).accepting,
            final(self).conns@ == old(self).conns@,
    {
        self.accepting = false;
    }
}

/// The failure reported when a single-shot accept finds the endpoint
/// yields no further connection.
pub fn no_connection_error() -> (r: NetworkError)
    ensures
        r is InternalError,
        r.detail_view() == "no connection"@,
{
    NetworkError::InternalError(String::from_str("no connection"))
}

/// Completed and Failed are terminal: no event moves a connection out of
/// them, so a unit that ended — either way — stays ended.
pub proof fn lemma_terminal_phases_stay(event: ConnEvent)
    ensures
        !event_fits(ConnPhase::Completed, event),
        !event_fits(ConnPhase::Failed, event),
{
}

/// Fault isolation: however one connection's unit ends — even in failure —
/// every sibling connection keeps its phase and the accept loop goes on
/// accepting, so one failed connection never terminates the server.
pub proof fn lemma_fault_isolation(
    before: Dispatcher,
    after: Dispatcher,
    idx: int,
    event: ConnEvent,
)
    requires
        0 <= idx < before.conns@.len(),
        after.accepting == before.accepting,
        after.conns@ == before.conns@.update(idx, conn_step(before.conns@[idx], event)),
    ensures
        after.conns@.len() == before.conns@.len(),
        forall|j: int| 0 <= j < before.conns@.len() && j != idx ==> after.conns@[j] == before.conns@[j],
        after.accepting == before.accepting,
{
}

/// Wait, after a close, for the endpoint to report idle: one observation
/// per time unit, at most `bound` of them. The wait always returns within
/// the bound, and an exhausted bound is not an error — the result only
/// says whether idleness was observed, and after how many units.
pub fn wait_idle_bounded(idle_at: &Vec<bool>, bound: usize) -> (r: (usize, bool))
    requires
        idle_at@.len() >= bound,
    ensures
        r.0 <= bound,
        r.1 ==> r.0 >= 1 && idle_at@[r.0 - 1] && (forall|j: int| 0 <= j < r.0 - 1 ==> !idle_at@[j]),
        !r.1 ==> r.0 == bound && (forall|j: int| 0 <= j < bound ==> !idle_at@[j]),
{
    let mut t: usize = 0;
    while t < bound
        invariant
            t <= bound,
            bound <= idle_at@.len(),
            forall|j: int| 0 <= j < t ==> !idle_at@[j],
        decreases bound - t,
    {
        if idle_at[t] {
            return (t + 1, true);
        }
        t = t + 1;
    }
    (bound, false)
}

} // verus!
