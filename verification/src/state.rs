//! One peer's connection lifecycle, without transport I/O.

use std::time::{Duration, Instant};
use vstd::prelude::*;

use crate::ids::PeerId;
use crate::shared::{ConnectionState, EventBus, ZenPawsEvent};
use crate::time::{duration_nanos, instant_add_fits, instant_checked_add, instant_not_before, instant_now, instant_ticks};

verus! {

/// Whether the lifecycle may move from `from` to `to`: connecting and degraded
/// peers may connect or disconnect, connected peers may degrade or disconnect,
/// disconnected peers may start connecting, and staying put is always allowed.
pub open spec fn valid_transition(from: ConnectionState, to: ConnectionState) -> bool {
    match (from, to) {
        (ConnectionState::Connecting, ConnectionState::Connected) => true,
        (ConnectionState::Connecting, ConnectionState::Disconnected) => true,
        (ConnectionState::Degraded, ConnectionState::Connected) => true,
        (ConnectionState::Degraded, ConnectionState::Disconnected) => true,
        (ConnectionState::Connected, ConnectionState::Degraded) => true,
        (ConnectionState::Connected, ConnectionState::Disconnected) => true,
        (ConnectionState::Disconnected, ConnectionState::Connecting) => true,
        _ => from == to,
    }
}

/// The state a session is in after announcing `announced`, starting from connecting.
pub open spec fn state_after(announced: Seq<ConnectionState>) -> ConnectionState {
    if announced.len() == 0 { ConnectionState::Connecting } else { announced.last() }
}

/// Every announced state differs from the one before it and is reachable from it.
pub open spec fn announcements_valid(announced: Seq<ConnectionState>) -> bool {
    forall|i: int|
        #![trigger announced[i]]
        0 <= i < announced.len() ==> {
            let before = state_after(announced.subrange(0, i));
            &&& before != announced[i]
            &&& valid_transition(before, announced[i])
        }
}

/// The heartbeat deadline armed at clock position `now` for a timeout of
/// `timeout` nanoseconds: that many nanoseconds later, or none where that
/// instant cannot be represented.
pub open spec fn deadline_from(now: int, timeout: nat) -> Option<int> {
    if instant_add_fits(now, timeout) { Some(now + timeout) } else { None }
}

/// Checks a lifecycle transition.
pub fn is_valid_transition(from: ConnectionState, to: ConnectionState) -> (valid: bool)
    ensures
        valid == valid_transition(from, to),
{
    match (from, to) {
        (ConnectionState::Connecting, ConnectionState::Connected)
        | (ConnectionState::Connecting, ConnectionState::Disconnected)
        | (ConnectionState::Degraded, ConnectionState::Connected)
        | (ConnectionState::Degraded, ConnectionState::Disconnected)
        | (ConnectionState::Connected, ConnectionState::Degraded)
        | (ConnectionState::Connected, ConnectionState::Disconnected)
        | (ConnectionState::Disconnected, ConnectionState::Connecting) => true,
        _ => from == to,
    }
}

/// Invalid state machine operations.
#[derive(Clone, Copy, Debug, PartialEq, Eq, Structural)]
pub enum StateError {
    HeartbeatWhileDisconnected,
    InvalidTransition { from: ConnectionState, to: ConnectionState },
}

/// The abstract state of a peer session: its identity, state, heartbeat
/// deadline on the monotonic clock, and the state changes it has announced on
/// the event bus, in order.
pub ghost struct SessionView {
    pub peer_id: PeerId,
    pub state: ConnectionState,
    pub deadline: Option<int>,
    pub announced: Seq<ConnectionState>,
}

/// Tracks one peer's lifecycle without performing transport I/O.
pub struct ConnectionStateMachine {
    bus: EventBus,
    heartbeat_deadline: Option<Instant>,
    peer_id: PeerId,
    state: ConnectionState,
    announced: Ghost<Seq<ConnectionState>>,
}

impl View for ConnectionStateMachine {
    type V = SessionView;

    closed spec fn view(&self) -> SessionView {
        SessionView {
            peer_id: self.peer_id,
            state: self.state,
            deadline: match self.heartbeat_deadline {
                Some(d) => Some(instant_ticks(d)),
                None => None,
            },
            announced: self.announced@,
        }
    }
}

/// The session after a successful move to `next`: the state changes, and a
/// change is announced when the state differs.
pub open spec fn moved(s: SessionView, next: ConnectionState) -> SessionView {
    SessionView {
        state: next,
        announced: if s.state == next { s.announced } else { s.announced.push(next) },
        ..s
    }
}

impl ConnectionStateMachine {
    /// Well-formedness: the announcements match the current state.
    pub closed spec fn wf(&self) -> bool {
        &&& announcements_valid(self.announced@)
        &&& state_after(self.announced@) == self.state
    }

    /// Law: a well-formed session's announcements form a valid lifecycle
    /// from connecting that ends in the current state.
    pub proof fn lemma_announcements_valid(&self)
        requires
            self.wf(),
        ensures
            announcements_valid(self@.announced),
            state_after(self@.announced) == self@.state,
    {
    }

    /// Creates a peer session in the connecting state.
    pub fn new(peer_id: PeerId, bus: EventBus) -> (machine: Self)
        ensures
            machine.wf(),
            machine@ == (SessionView {
                peer_id,
                state: ConnectionState::Connecting,
                deadline: None,
                announced: Seq::empty(),
            }),
    {
        ConnectionStateMachine {
            bus,
            heartbeat_deadline: None,
            peer_id,
            state: ConnectionState::Connecting,
            announced: Ghost(Seq::empty()),
        }
    }

    /// Publishes a cross-module event from this peer session.
    pub fn publish(&self, event: ZenPawsEvent) {
        self.bus.publish(event);
    }

    /// Returns the current peer state.
    pub fn state(&self) -> (state: ConnectionState)
        ensures
            state == self@.state,
    {
        self.state
    }

    /// Records a successful TLS and TOFU handshake and arms the heartbeat deadline.
    pub fn connected(&mut self, heartbeat_timeout: Duration) -> (result: Result<(), StateError>)
        requires
            old(self).wf(),
        ensures
            final(self).wf(),
            valid_transition(old(self)@.state, ConnectionState::Connected) ==> {
                &&& result is Ok
                &&& final(self)@ == (SessionView {
                    deadline: final(self)@.deadline,
                    ..moved(old(self)@, ConnectionState::Connected)
                })
                &&& exists|now: int| final(self)@.deadline == #[trigger] deadline_from(now, duration_nanos(heartbeat_timeout))
            },
            !valid_transition(old(self)@.state, ConnectionState::Connected) ==> {
                &&& result == Err::<(), StateError>(StateError::InvalidTransition {
                    from: old(self)@.state,
                    to: ConnectionState::Connected,
                })
                &&& final(self)@ == old(self)@
            },
    {
        self.transition(ConnectionState::Connected)?;
        let now = self.refresh_deadline(heartbeat_timeout);
        assert(self@.deadline == deadline_from(instant_ticks(now), duration_nanos(heartbeat_timeout)));
        Ok(())
    }

    /// Records a heartbeat, refreshes the deadline, and restores a degraded peer.
    pub fn heartbeat(&mut self, heartbeat_timeout: Duration) -> (result: Result<(), StateError>)
        requires
            old(self).wf(),
        ensures
            final(self).wf(),
            old(self)@.state == ConnectionState::Disconnected ==> {
                &&& result == Err::<(), StateError>(StateError::HeartbeatWhileDisconnected)
                &&& final(self)@ == old(self)@
            },
            old(self)@.state != ConnectionState::Disconnected ==> {
                &&& result is Ok
                &&& final(self)@ == (SessionView {
                    deadline: final(self)@.deadline,
                    ..if old(self)@.state == ConnectionState::Degraded {
                        moved(old(self)@, ConnectionState::Connected)
                    } else {
                        old(self)@
                    }
                })
                &&& exists|now: int| final(self)@.deadline == #[trigger] deadline_from(now, duration_nanos(heartbeat_timeout))
            },
    {
        if self.state == ConnectionState::Disconnected {
            return Err(StateError::HeartbeatWhileDisconnected);
        }
        let now = self.refresh_deadline(heartbeat_timeout);
        assert(self@.deadline == deadline_from(instant_ticks(now), duration_nanos(heartbeat_timeout)));
        if self.state == ConnectionState::Degraded {
            self.transition(ConnectionState::Connected)?;
        }
        Ok(())
    }

    /// Degrades the peer once `now` has reached the heartbeat deadline.
    pub fn check_heartbeat(&mut self, now: Instant) -> (result: Result<(), StateError>)
        requires
            old(self).wf(),
        ensures
            final(self).wf(),
            ({
                let due = old(self)@.deadline matches Some(d) && instant_ticks(now) >= d;
                &&& !due ==> result is Ok && final(self)@ == old(self)@
                &&& due && valid_transition(old(self)@.state, ConnectionState::Degraded) ==> {
                    &&& result is Ok
                    &&& final(self)@ == moved(old(self)@, ConnectionState::Degraded)
                }
                &&& due && !valid_transition(old(self)@.state, ConnectionState::Degraded) ==> {
                    &&& result == Err::<(), StateError>(StateError::InvalidTransition {
                        from: old(self)@.state,
                        to: ConnectionState::Degraded,
                    })
                    &&& final(self)@ == old(self)@
                }
            }),
    {
        let due = match self.heartbeat_deadline {
            Some(deadline) => instant_not_before(now, deadline),
            None => false,
        };
        if due {
            self.transition(ConnectionState::Degraded)?;
        }
        Ok(())
    }

    /// Marks the peer unavailable after transport closure or retry exhaustion;
    /// every state may become disconnected, so this never fails.
    pub fn disconnected(&mut self) -> (result: Result<(), StateError>)
        requires
            old(self).wf(),
        ensures
            final(self).wf(),
            result is Ok,
            final(self)@ == (SessionView {
                deadline: None,
                ..moved(old(self)@, ConnectionState::Disconnected)
            }),
    {
        self.heartbeat_deadline = None;
        self.transition(ConnectionState::Disconnected)
    }

    /// Reads the monotonic clock and arms the deadline `heartbeat_timeout`
    /// after that reading; returns the reading.
    fn refresh_deadline(&mut self, heartbeat_timeout: Duration) -> (now: Instant)
        requires
            old(self).wf(),
        ensures
            final(self).wf(),
            final(self)@ == (SessionView {
                deadline: deadline_from(instant_ticks(now), duration_nanos(heartbeat_timeout)),
                ..old(self)@
            }),
    {
        let now = instant_now();
        self.heartbeat_deadline = instant_checked_add(now, heartbeat_timeout);
        now
    }

    /// Moves the session to `next` when the lifecycle allows it: an invalid
    /// move is refused and changes nothing; a valid one changes the state and
    /// announces it exactly when the state differs.
    pub fn transition(&mut self, next: ConnectionState) -> (result: Result<(), StateError>)
        requires
            old(self).wf(),
        ensures
            final(self).wf(),
            valid_transition(old(self)@.state, next) ==> {
                &&& result is Ok
                &&& final(self)@ == moved(old(self)@, next)
            },
            !valid_transition(old(self)@.state, next) ==> {
                &&& result == Err::<(), StateError>(StateError::InvalidTransition { from: old(self)@.state, to: next })
                &&& final(self)@ == old(self)@
            },
    {
        if !is_valid_transition(self.state, next) {
            return Err(StateError::InvalidTransition { from: self.state, to: next });
        }
        if self.state != next {
            let ghost before = self.announced@;
            self.state = next;
            self.announced = Ghost(before.push(next));
            proof {
                assert forall|i: int| 0 <= i < self.announced@.len() implies {
                    let b = state_after(#[trigger] self.announced@.subrange(0, i));
                    &&& b != self.announced@[i]
                    &&& valid_transition(b, self.announced@[i])
                } by {
                    assert(self.announced@.subrange(0, i) =~= before.subrange(0, i) || i == before.len());
                    if i < before.len() {
                        assert(self.announced@.subrange(0, i) =~= before.subrange(0, i));
                        assert(self.announced@[i] == before[i]);
                    } else {
                        assert(self.announced@.subrange(0, i) =~= before);
                    }
                }
            }
            self.bus.publish(ZenPawsEvent::PeerStateChanged { peer_id: self.peer_id, state: next });
        }
        Ok(())
    }
}

} // verus!
