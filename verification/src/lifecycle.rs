//! The server lifecycle: a state machine for the listening socket's
//! readiness, admission of connections, and graceful shutdown.
//!
//! The listening handle's readiness state has one producer — the accept
//! loop, which fires a single irreversible `NotReady → Ready` transition
//! once the socket actually accepts connections — and any number of
//! readers, who await that transition. A shutdown request stops admitting
//! new connections at once and lets the admitted ones drain; the stopped
//! state is reached only once all of them have closed or the bounded grace
//! period has elapsed.
//!
//! The loop around the socket suspends on I/O and cannot be verified; it
//! feeds each occurrence to [`Lifecycle::step`], whose returned action says
//! whether a connection is admitted, and polls
//! [`Lifecycle::ready_transition_fired`] to decide when a readiness wait
//! returns.

use vstd::prelude::*;

verus! {

/// The readiness state of the listening handle.
#[derive(Clone, Copy, PartialEq, Eq, Structural, Debug)]
pub enum LifecycleState {
    /// The socket is not yet accepting connections.
    NotReady,
    /// The accept loop is running: the socket genuinely accepts connections.
    Ready,
    /// Shutdown was requested: no new connection is admitted while the
    /// already-admitted ones finish.
    Draining,
    /// The listener has stopped: nothing is admitted and nothing is
    /// in flight.
    Stopped,
}

/// An occurrence the accept loop observes and feeds to the state machine.
#[derive(Clone, Copy, PartialEq, Eq, Structural, Debug)]
pub enum LifecycleEvent {
    /// The accept loop has begun accepting connections on the bound socket.
    Accepting,
    /// A peer attempts a connection.
    ConnectionOpened,
    /// An admitted connection has finished and closed.
    ConnectionClosed,
    /// Graceful shutdown was requested.
    ShutdownRequested,
    /// The bounded grace period of a drain has elapsed.
    GraceExpired,
}

/// What the accept loop must do in answer to an event.
#[derive(Clone, Copy, PartialEq, Eq, Structural, Debug)]
pub enum LifecycleAction {
    /// Admit the connection and serve it.
    Admit,
    /// Refuse the connection.
    Refuse,
    /// Nothing outward to do.
    Proceed,
}

/// The lifecycle of one listener: its readiness state and the number of
/// admitted connections not yet closed.
pub struct Lifecycle {
    pub state: LifecycleState,
    pub active: u64,
}

/// The state after an event. Total: every state accepts every event, and
/// an event that does not apply leaves the state unchanged.
pub open spec fn spec_step(lc: Lifecycle, ev: LifecycleEvent) -> Lifecycle {
    match ev {
        LifecycleEvent::Accepting => {
            if lc.state is NotReady {
                Lifecycle { state: LifecycleState::Ready, ..lc }
            } else {
                lc
            }
        },
        LifecycleEvent::ConnectionOpened => {
            if lc.state is Ready && lc.active < u64::MAX {
                Lifecycle { active: (lc.active + 1) as u64, ..lc }
            } else {
                lc
            }
        },
        LifecycleEvent::ConnectionClosed => {
            if lc.active > 0 {
                if lc.state is Draining && lc.active == 1 {
                    Lifecycle { state: LifecycleState::Stopped, active: 0 }
                } else {
                    Lifecycle { active: (lc.active - 1) as u64, ..lc }
                }
            } else {
                lc
            }
        },
        LifecycleEvent::ShutdownRequested => {
            if lc.state is Ready {
                if lc.active == 0 {
                    Lifecycle { state: LifecycleState::Stopped, ..lc }
                } else {
                    Lifecycle { state: LifecycleState::Draining, ..lc }
                }
            } else {
                lc
            }
        },
        LifecycleEvent::GraceExpired => {
            if lc.state is Draining {
                Lifecycle { state: LifecycleState::Stopped, active: 0 }
            } else {
                lc
            }
        },
    }
}

/// The action an event demands: a connection attempt is admitted exactly
/// when the listener is ready and not exhausted; no other event asks for
/// outward work.
pub open spec fn spec_action(lc: Lifecycle, ev: LifecycleEvent) -> LifecycleAction {
    if ev is ConnectionOpened {
        if lc.state is Ready && lc.active < u64::MAX {
            LifecycleAction::Admit
        } else {
            LifecycleAction::Refuse
        }
    } else {
        LifecycleAction::Proceed
    }
}

/// The state after a whole sequence of events, applied in order.
pub open spec fn spec_run(lc: Lifecycle, evs: Seq<LifecycleEvent>) -> Lifecycle
    decreases evs.len(),
{
    if evs.len() == 0 {
        lc
    } else {
        spec_run(spec_step(lc, evs[0]), evs.subrange(1, evs.len() as int))
    }
}

impl Lifecycle {
    /// Well-formed: nothing is in flight before readiness or after stop.
    pub open spec fn wf(&self) -> bool {
        &&& self.state is NotReady ==> self.active == 0
        &&& self.state is Stopped ==> self.active == 0
    }

    /// A fresh listener: not ready, nothing in flight.
    pub fn new() -> (r: Lifecycle)
        ensures
            r.wf(),
            r.state is NotReady,
            r.active == 0,
    {
        Lifecycle { state: LifecycleState::NotReady, active: 0 }
    }

    /// Applies one event and returns the action it demands.
    pub fn step(&mut self, ev: LifecycleEvent) -> (action: LifecycleAction)
        requires
            old(self).wf(),
        ensures
            *final(self) == spec_step(*old(self), ev),
            action == spec_action(*old(self), ev),
            final(self).wf(),
    {
        match ev {
            LifecycleEvent::Accepting => {
                if matches!(self.state, LifecycleState::NotReady) {
                    self.state = LifecycleState::Ready;
                }
                LifecycleAction::Proceed
            },
            LifecycleEvent::ConnectionOpened => {
                if matches!(self.state, LifecycleState::Ready) && self.active < u64::MAX {
                    self.active = self.active + 1;
                    LifecycleAction::Admit
                } else {
                    LifecycleAction::Refuse
                }
            },
            LifecycleEvent::ConnectionClosed => {
                if self.active > 0 {
                    if matches!(self.state, LifecycleState::Draining) && self.active == 1 {
                        self.state = LifecycleState::Stopped;
                        self.active = 0;
                    } else {
                        self.active = self.active - 1;
                    }
                }
                LifecycleAction::Proceed
            },
            LifecycleEvent::ShutdownRequested => {
                if matches!(self.state, LifecycleState::Ready) {
                    if self.active == 0 {
                        self.state = LifecycleState::Stopped;
                    } else {
                        self.state = LifecycleState::Draining;
                    }
                }
                LifecycleAction::Proceed
            },
            LifecycleEvent::GraceExpired => {
                if matches!(self.state, LifecycleState::Draining) {
                    self.state = LifecycleState::Stopped;
                    self.active = 0;
                }
                LifecycleAction::Proceed
            },
        }
    }

    /// True once the single readiness transition has occurred. A readiness
    /// wait suspends until this is true, and returns as soon as it is: it
    /// can neither return early nor miss the transition, since the
    /// transition is irreversible.
    pub fn ready_transition_fired(&self) -> (r: bool)
        ensures
            r == !(self.state is NotReady),
    {
        !matches!(self.state, LifecycleState::NotReady)
    }

    /// True while connection attempts are admitted.
    pub fn is_accepting(&self) -> (r: bool)
        ensures
            r == (self.state is Ready),
    {
        matches!(self.state, LifecycleState::Ready)
    }
}

/// The readiness transition is irreversible: once the listener has left
/// `NotReady`, no event returns it there.
pub proof fn lemma_ready_irreversible(lc: Lifecycle, ev: LifecycleEvent)
    requires
        !(lc.state is NotReady),
    ensures
        !(spec_step(lc, ev).state is NotReady),
{
}

/// Readiness once observed stays observed over any whole sequence of
/// events: a reader that saw the transition can rely on it forever.
pub proof fn lemma_ready_stable(lc: Lifecycle, evs: Seq<LifecycleEvent>)
    requires
        !(lc.state is NotReady),
    ensures
        !(spec_run(lc, evs).state is NotReady),
    decreases evs.len(),
{
    if evs.len() > 0 {
        lemma_ready_irreversible(lc, evs[0]);
        lemma_ready_stable(spec_step(lc, evs[0]), evs.subrange(1, evs.len() as int));
    }
}

/// The only way out of `NotReady` is the event that says the accept loop
/// has begun accepting: a reader cannot observe readiness before the socket
/// genuinely accepts connections.
pub proof fn lemma_ready_only_by_accepting(lc: Lifecycle, ev: LifecycleEvent)
    requires
        lc.state is NotReady,
        !(spec_step(lc, ev).state is NotReady),
    ensures
        ev is Accepting,
{
}

/// Every event preserves well-formedness.
pub proof fn lemma_step_preserves_wf(lc: Lifecycle, ev: LifecycleEvent)
    requires
        lc.wf(),
    ensures
        spec_step(lc, ev).wf(),
{
}

/// Well-formedness holds along any whole sequence of events.
pub proof fn lemma_run_preserves_wf(lc: Lifecycle, evs: Seq<LifecycleEvent>)
    requires
        lc.wf(),
    ensures
        spec_run(lc, evs).wf(),
    decreases evs.len(),
{
    if evs.len() > 0 {
        lemma_step_preserves_wf(lc, evs[0]);
        lemma_run_preserves_wf(spec_step(lc, evs[0]), evs.subrange(1, evs.len() as int));
    }
}

/// A connection is admitted only after the readiness transition has fired,
/// and while the listener is ready every attempt is admitted absent
/// resource exhaustion.
pub proof fn lemma_admission_requires_ready(lc: Lifecycle, ev: LifecycleEvent)
    ensures
        spec_action(lc, ev) is Admit ==> lc.state is Ready,
        lc.state is Ready && ev is ConnectionOpened && lc.active < u64::MAX
            ==> spec_action(lc, ev) is Admit,
{
}

/// Graceful drain: after a shutdown request no new connection is admitted,
/// and the stopped state holds no connection in flight.
pub proof fn lemma_graceful_drain(lc: Lifecycle, ev: LifecycleEvent)
    requires
        lc.wf(),
    ensures
        lc.state is Draining || lc.state is Stopped ==> !(spec_action(lc, ev) is Admit),
        spec_step(lc, ev).state is Stopped ==> spec_step(lc, ev).active == 0,
{
}

} // verus!
