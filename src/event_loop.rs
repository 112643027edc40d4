use vstd::prelude::*;
use crate::device::{decode_status, decodes_to, DeviceOptions, RawDeviceInfo};
use crate::error::InvalidStatus;

verus! {

/// Where the event loop stands.
#[derive(Debug, Clone, Copy, PartialEq, Eq, Structural)]
pub enum LoopState {
    Running,
    DisconnectRequested,
    Terminated,
}

/// What the transport reports to the event loop.
#[derive(Debug)]
pub enum LoopEvent {
    /// A message arrived on `topic`.
    Publish { topic: String, payload: Vec<u8> },
    /// Any other packet arrived.
    Incoming,
    /// The client sent a disconnect request.
    OutgoingDisconnect,
    /// The client sent any other packet.
    Outgoing,
    /// The connection was aborted under the client.
    ConnectionAborted,
    /// Any other connection error.
    ConnectionError,
    /// Nobody reads the published snapshots any more.
    ReadersGone,
}

/// What the event loop does in answer to an event.
#[derive(Debug)]
pub enum LoopAction {
    /// Publish the decoded record as the latest snapshot.
    Publish(RawDeviceInfo),
    /// Drop a status payload that did not decode, and keep polling.
    Discard(InvalidStatus),
    /// Only observe the event.
    Observe,
    /// Report a connection error and keep polling.
    Warn,
    /// Stop the loop cleanly.
    Exit,
}

/// The state after `e` in state `s`.
pub open spec fn next_state(s: LoopState, e: LoopEvent) -> LoopState {
    if s == LoopState::Terminated {
        LoopState::Terminated
    } else {
        match e {
            LoopEvent::ReadersGone => LoopState::Terminated,
            LoopEvent::OutgoingDisconnect => LoopState::DisconnectRequested,
            LoopEvent::ConnectionAborted => if s == LoopState::DisconnectRequested {
                LoopState::Terminated
            } else {
                s
            },
            _ => s,
        }
    }
}

/// Whether `a` answers `e` in state `s`, where `topic` is the status topic.
pub open spec fn answers(s: LoopState, topic: Seq<char>, e: LoopEvent, a: LoopAction) -> bool {
    if s == LoopState::Terminated {
        a is Exit
    } else {
        match e {
            LoopEvent::Publish { topic: t, payload } => if t@ == topic {
                match a {
                    LoopAction::Publish(raw) => decodes_to(payload, Ok(raw)),
                    LoopAction::Discard(err) => decodes_to(payload, Err(err)),
                    _ => false,
                }
            } else {
                a is Observe
            },
            LoopEvent::Incoming | LoopEvent::Outgoing | LoopEvent::OutgoingDisconnect => a is Observe,
            LoopEvent::ConnectionAborted => if s == LoopState::DisconnectRequested {
                a is Exit
            } else {
                a is Warn
            },
            LoopEvent::ConnectionError => a is Warn,
            LoopEvent::ReadersGone => a is Exit,
        }
    }
}

/// The state after the events `evs` in turn, from `s`.
pub open spec fn run_events(s: LoopState, evs: Seq<LoopEvent>) -> LoopState
    decreases evs.len(),
{
    if evs.len() == 0 {
        s
    } else {
        run_events(next_state(s, evs[0]), evs.drop_first())
    }
}

/// The decisions of the event loop that drives a device's transport.
pub struct LoopControl {
    state: LoopState,
    status_topic: String,
}

impl LoopControl {
    pub closed spec fn spec_state(&self) -> LoopState {
        self.state
    }

    pub closed spec fn spec_status_topic(&self) -> Seq<char> {
        self.status_topic@
    }

    /// A running loop for the device `options` names.
    pub fn new(options: &DeviceOptions) -> (r: LoopControl)
        ensures
            r.spec_state() == LoopState::Running,
            r.spec_status_topic() == options.spec_data_topic(),
    {
        LoopControl { state: LoopState::Running, status_topic: options.data_topic() }
    }

    pub fn state(&self) -> (r: LoopState)
        ensures
            r == self.spec_state(),
    {
        self.state
    }

    /// Takes in one event: moves to the next state and says what to do.
    pub fn step(&mut self, event: LoopEvent) -> (r: LoopAction)
        ensures
            final(self).spec_state() == next_state(old(self).spec_state(), event),
            final(self).spec_status_topic() == old(self).spec_status_topic(),
            answers(old(self).spec_state(), old(self).spec_status_topic(), event, r),
    {
        if self.state == LoopState::Terminated {
            return LoopAction::Exit;
        }
        match event {
            LoopEvent::Publish { topic, payload } => {
                if topic == self.status_topic {
                    match decode_status(payload) {
                        Ok(raw) => LoopAction::Publish(raw),
                        Err(e) => LoopAction::Discard(e),
                    }
                } else {
                    LoopAction::Observe
                }
            },
            LoopEvent::Incoming | LoopEvent::Outgoing => LoopAction::Observe,
            LoopEvent::OutgoingDisconnect => {
                self.state = LoopState::DisconnectRequested;
                LoopAction::Observe
            },
            LoopEvent::ConnectionAborted => {
                if self.state == LoopState::DisconnectRequested {
                    self.state = LoopState::Terminated;
                    LoopAction::Exit
                } else {
                    LoopAction::Warn
                }
            },
            LoopEvent::ConnectionError => LoopAction::Warn,
            LoopEvent::ReadersGone => {
                self.state = LoopState::Terminated;
                LoopAction::Exit
            },
        }
    }
}

proof fn lemma_abort_after_request(s: LoopState, evs: Seq<LoopEvent>)
    requires
        s == LoopState::DisconnectRequested || s == LoopState::Terminated,
    ensures
        run_events(s, evs.push(LoopEvent::ConnectionAborted)) == LoopState::Terminated,
    decreases evs.len(),
{
    if evs.len() > 0 {
        assert(evs.push(LoopEvent::ConnectionAborted).drop_first()
            =~= evs.drop_first().push(LoopEvent::ConnectionAborted));
        assert(evs.push(LoopEvent::ConnectionAborted)[0] == evs[0]);
        lemma_abort_after_request(next_state(s, evs[0]), evs.drop_first());
    } else {
        let one = evs.push(LoopEvent::ConnectionAborted);
        assert(one.drop_first() =~= Seq::<LoopEvent>::empty());
        assert(run_events(next_state(s, one[0]), one.drop_first()) == LoopState::Terminated);
    }
}

/// Once the client has sent its disconnect request, the connection abort that
/// follows ends the loop, whatever events come between; and an abort with no
/// disconnect requested leaves a running loop running, reported as an error.
pub proof fn lemma_disconnect_then_abort_terminates(s: LoopState, topic: Seq<char>, evs: Seq<LoopEvent>)
    requires
        s != LoopState::Terminated,
    ensures
        run_events(s, seq![LoopEvent::OutgoingDisconnect] + evs + seq![LoopEvent::ConnectionAborted])
            == LoopState::Terminated,
        answers(LoopState::DisconnectRequested, topic, LoopEvent::ConnectionAborted, LoopAction::Exit),
        next_state(LoopState::Running, LoopEvent::ConnectionAborted) == LoopState::Running,
        forall|a: LoopAction| answers(LoopState::Running, topic, LoopEvent::ConnectionAborted, a) ==> a is Warn,
{
    let all = seq![LoopEvent::OutgoingDisconnect] + evs + seq![LoopEvent::ConnectionAborted];
    assert(all.drop_first() =~= evs.push(LoopEvent::ConnectionAborted));
    lemma_abort_after_request(LoopState::DisconnectRequested, evs);
}

} // verus!
