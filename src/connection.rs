use vstd::prelude::*;
use crate::error::RelayError;
use crate::events::{encode, EventMessage};
use crate::registry::{registered, Registry};

verus! {

/// Milliseconds between two liveness probes.
pub const HEARTBEAT_INTERVAL_MS: u64 = 5000;

/// Milliseconds without an acknowledgement after which the peer counts as
/// gone.
pub const CLIENT_TIMEOUT_MS: u64 = 10000;

/// Lifecycle of one connection.
#[derive(Debug, Clone, Copy, PartialEq, Eq, Structural)]
pub enum Phase {
    Open,
    Closing,
    Closed,
}

/// The kind of a frame received from the peer.
#[derive(Debug, Clone, Copy, PartialEq, Eq, Structural)]
pub enum Inbound {
    /// Acknowledgement of a liveness probe.
    Pong,
    /// A text frame: informational only.
    Text,
    /// Any other frame, a close frame or a transport error.
    Other,
}

/// What the connection asks of its transport.
#[derive(Debug, Clone, PartialEq, Eq)]
pub enum ActorAction {
    /// Nothing to do.
    Idle,
    /// Send a liveness probe without payload.
    SendPing,
    /// Log the text frame that came in.
    LogText,
    /// Terminate the connection.
    Stop,
    /// Write these bytes to the peer as one binary frame.
    SendFrame(Vec<u8>),
    /// Report this failure: the message cannot be sent.
    Refuse(RelayError),
}

/// The state of one connection: its phase and when the peer last
/// acknowledged a probe, in milliseconds from a fixed origin.
pub struct ConnectionActor {
    phase: Phase,
    last_heartbeat: u64,
}

/// The abstract state of a connection.
pub struct ActorView {
    pub phase: Phase,
    pub last_heartbeat: int,
}

/// The peer has been silent for longer than the timeout at time `now`.
pub open spec fn timed_out(last_heartbeat: int, now: int) -> bool {
    now - last_heartbeat > CLIENT_TIMEOUT_MS
}

/// The state after the probe timer fires at `now`.
pub open spec fn after_timer(s: ActorView, now: int) -> ActorView {
    if s.phase == Phase::Open && timed_out(s.last_heartbeat, now) {
        ActorView { phase: Phase::Closing, ..s }
    } else {
        s
    }
}

/// Whether the timer firing at `now` stops the connection (`Some(true)`),
/// sends a probe (`Some(false)`), or does nothing (`None`).
pub open spec fn timer_stops(s: ActorView, now: int) -> Option<bool> {
    if s.phase == Phase::Open {
        Some(timed_out(s.last_heartbeat, now))
    } else {
        None
    }
}

/// The state after a frame of kind `k` arrives at `now`.
pub open spec fn after_frame(s: ActorView, k: Inbound, now: int) -> ActorView {
    if s.phase != Phase::Open {
        s
    } else {
        match k {
            Inbound::Pong => ActorView { last_heartbeat: now, ..s },
            Inbound::Text => s,
            Inbound::Other => ActorView { phase: Phase::Closing, ..s },
        }
    }
}

impl View for ConnectionActor {
    type V = ActorView;

    closed spec fn view(&self) -> ActorView {
        ActorView { phase: self.phase, last_heartbeat: self.last_heartbeat as int }
    }
}

impl ConnectionActor {
    /// A connection that has just started at `now`.
    pub fn new(now: u64) -> (r: Self)
        ensures
            r@ == (ActorView { phase: Phase::Open, last_heartbeat: now as int }),
    {
        ConnectionActor { phase: Phase::Open, last_heartbeat: now }
    }

    /// A connection that has just started at `now` and registers `handle`,
    /// its outbound handle, as the current delivery target.
    pub fn start<H>(now: u64, handle: H, registry: &mut Registry<H>) -> (r: Self)
        ensures
            r@ == (ActorView { phase: Phase::Open, last_heartbeat: now as int }),
            final(registry)@ == registered(old(registry)@, handle),
    {
        registry.set(handle);
        ConnectionActor::new(now)
    }

    pub fn phase(&self) -> (r: Phase)
        ensures
            r == self@.phase,
    {
        self.phase
    }

    pub fn last_heartbeat(&self) -> (r: u64)
        ensures
            r == self@.last_heartbeat,
    {
        self.last_heartbeat
    }

    /// The probe timer fired at `now`: stop a peer that has been silent too
    /// long, else probe it again.
    pub fn on_timer(&mut self, now: u64) -> (r: ActorAction)
        ensures
            final(self)@ == after_timer(old(self)@, now as int),
            match timer_stops(old(self)@, now as int) {
                Some(true) => r == ActorAction::Stop,
                Some(false) => r == ActorAction::SendPing,
                None => r == ActorAction::Idle,
            },
    {
        if self.phase != Phase::Open {
            return ActorAction::Idle;
        }
        if now > self.last_heartbeat && now - self.last_heartbeat > CLIENT_TIMEOUT_MS {
            self.phase = Phase::Closing;
            ActorAction::Stop
        } else {
            ActorAction::SendPing
        }
    }

    /// A frame of kind `kind` arrived at `now`.
    pub fn on_frame(&mut self, kind: Inbound, now: u64) -> (r: ActorAction)
        ensures
            final(self)@ == after_frame(old(self)@, kind, now as int),
            old(self)@.phase != Phase::Open ==> r == ActorAction::Idle,
            old(self)@.phase == Phase::Open ==> r == match kind {
                Inbound::Pong => ActorAction::Idle,
                Inbound::Text => ActorAction::LogText,
                Inbound::Other => ActorAction::Stop,
            },
    {
        if self.phase != Phase::Open {
            return ActorAction::Idle;
        }
        match kind {
            Inbound::Pong => {
                self.last_heartbeat = now;
                ActorAction::Idle
            },
            Inbound::Text => ActorAction::LogText,
            Inbound::Other => {
                self.phase = Phase::Closing;
                ActorAction::Stop
            },
        }
    }

    /// A message handed over for the peer: while open, its frame is written
    /// once, without waiting for an acknowledgement; a message whose payload
    /// is too long for the frame is refused.
    pub fn deliver(&self, msg: &EventMessage) -> (r: ActorAction)
        ensures
            self@.phase == Phase::Open && msg.wf() ==> (r matches ActorAction::SendFrame(b) && b@
                == encode(msg@)),
            self@.phase == Phase::Open && !msg.wf() ==> r == ActorAction::Refuse(
                RelayError::PayloadTooLarge,
            ),
            self@.phase != Phase::Open ==> r == ActorAction::Idle,
    {
        if self.phase != Phase::Open {
            return ActorAction::Idle;
        }
        match msg.serialize() {
            Ok(frame) => ActorAction::SendFrame(frame),
            Err(e) => ActorAction::Refuse(e),
        }
    }

    /// Teardown of a closing connection has completed.
    pub fn on_closed(&mut self)
        ensures
            final(self)@ == (ActorView { phase: Phase::Closed, ..old(self)@ }),
    {
        self.phase = Phase::Closed;
    }
}

/// An open connection whose heartbeat was last reset at `t` stops on the
/// first timer tick later than `t` plus the timeout, and stays open, sending
/// a probe, on every earlier tick.
pub proof fn lemma_heartbeat_timeout(t: int, now: int)
    ensures
        now > t + CLIENT_TIMEOUT_MS ==> {
            &&& after_timer(ActorView { phase: Phase::Open, last_heartbeat: t }, now).phase
                == Phase::Closing
            &&& timer_stops(ActorView { phase: Phase::Open, last_heartbeat: t }, now) == Some(true)
        },
        now <= t + CLIENT_TIMEOUT_MS ==> {
            &&& after_timer(ActorView { phase: Phase::Open, last_heartbeat: t }, now).phase
                == Phase::Open
            &&& timer_stops(ActorView { phase: Phase::Open, last_heartbeat: t }, now) == Some(false)
        },
{
}

} // verus!
