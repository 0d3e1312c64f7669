//! The relay's pairing loop: one tunnel connection is accepted and
//! validated, one consumer connection is accepted, the two are forwarded
//! until the pair ends, and only then is the next tunnel connection accepted.

use crate::config::Config;
use crate::forward::ForwardEnd;
use crate::handshake::{bytes_of, exact_read, validate_handshake, verdict, HandshakeError};
use vstd::prelude::*;
use vstd::slice::slice_to_vec;

verus! {

/// Where the relay stands.
#[derive(Clone, Copy, Debug, PartialEq, Eq, Structural)]
pub enum RelayState {
    /// Waiting for a tunnel connection on the public listener.
    WaitTunnel,
    /// Reading the handshake of the tunnel connection just accepted.
    Validating,
    /// Closing a tunnel connection whose handshake was refused.
    Rejecting(HandshakeError),
    /// Holding an admitted tunnel connection and waiting for a consumer.
    WaitConsumer,
    /// A pair is being forwarded.
    Forwarding,
}

/// What the relay asks for next.
#[derive(Clone, Copy, Debug, PartialEq, Eq, Structural)]
pub enum RelayAction {
    /// Accept a connection on the public listener.
    AcceptTunnel,
    /// Read exactly this many bytes from the tunnel connection.
    ReadHandshake(usize),
    /// Close the tunnel connection and discard it: its handshake was refused
    /// for the given reason.
    RejectTunnel(HandshakeError),
    /// Accept a connection on the listener for consumers.
    AcceptConsumer,
    /// Forward between the tunnel connection and the consumer connection
    /// until the pair ends.
    Forward,
}

/// Something that happened at the relay.
#[derive(Clone, Copy, Debug)]
pub enum RelayEvent<'a> {
    /// The public listener gave a connection.
    TunnelAccepted,
    /// The public listener failed to give a connection.
    TunnelAcceptFailed,
    /// The read of the handshake came back: with the bytes, or with nothing
    /// if the connection closed or failed before they had all arrived.
    HandshakeRead(Option<&'a [u8]>),
    /// The refused tunnel connection was closed.
    TunnelClosed,
    /// The listener for consumers gave a connection.
    ConsumerAccepted,
    /// The listener for consumers failed to give a connection.
    ConsumerAcceptFailed,
    /// The pair ended and both its connections were closed.
    PairEnded(ForwardEnd),
}

/// A relay as a mathematical value.
pub struct RelayView {
    pub secret: Seq<u8>,
    pub state: RelayState,
}

impl RelayView {
    /// A relay that has just been started with `secret`.
    pub open spec fn start(secret: Seq<u8>) -> RelayView {
        RelayView { secret, state: RelayState::WaitTunnel }
    }

    /// The operation that the relay is waiting on.
    pub open spec fn action(self) -> RelayAction {
        match self.state {
            RelayState::WaitTunnel => RelayAction::AcceptTunnel,
            RelayState::Validating => RelayAction::ReadHandshake(self.secret.len() as usize),
            RelayState::Rejecting(reason) => RelayAction::RejectTunnel(reason),
            RelayState::WaitConsumer => RelayAction::AcceptConsumer,
            RelayState::Forwarding => RelayAction::Forward,
        }
    }

    /// The relay after the read of a handshake gave `received`. Outside
    /// validation a handshake changes nothing.
    pub open spec fn after_handshake(self, received: Option<Seq<u8>>) -> RelayView {
        if self.state == RelayState::Validating {
            match verdict(received, self.secret) {
                Ok(_) => RelayView { state: RelayState::WaitConsumer, ..self },
                Err(reason) => RelayView { state: RelayState::Rejecting(reason), ..self },
            }
        } else {
            self
        }
    }

    /// The relay after `event`. A failed accept is tried again; an event
    /// that does not answer the operation asked for changes nothing.
    pub open spec fn after(self, event: RelayEvent) -> RelayView {
        match (self.state, event) {
            (RelayState::WaitTunnel, RelayEvent::TunnelAccepted) => RelayView {
                state: RelayState::Validating,
                ..self
            },
            (RelayState::Validating, RelayEvent::HandshakeRead(received)) => self.after_handshake(
                bytes_of(received),
            ),
            (RelayState::Rejecting(_), RelayEvent::TunnelClosed) => RelayView {
                state: RelayState::WaitTunnel,
                ..self
            },
            (RelayState::WaitConsumer, RelayEvent::ConsumerAccepted) => RelayView {
                state: RelayState::Forwarding,
                ..self
            },
            (RelayState::Forwarding, RelayEvent::PairEnded(_)) => RelayView {
                state: RelayState::WaitTunnel,
                ..self
            },
            _ => self,
        }
    }

    /// The relay after each of `events` in turn.
    pub open spec fn run(self, events: Seq<RelayEvent>) -> RelayView
        decreases events.len(),
    {
        if events.len() == 0 {
            self
        } else {
            self.run(events.drop_last()).after(events.last())
        }
    }

    /// Whether the relay holds a tunnel connection that was admitted.
    pub open spec fn holds_admitted_tunnel(self) -> bool {
        self.state == RelayState::WaitConsumer || self.state == RelayState::Forwarding
    }
}

/// Whether `event` is the read of a handshake that gave `secret`.
pub open spec fn carries_secret(event: RelayEvent, secret: Seq<u8>) -> bool {
    event matches RelayEvent::HandshakeRead(Some(bytes)) && bytes@ == secret
}

/// The relay's pairing loop.
pub struct Relay {
    secret: Vec<u8>,
    state: RelayState,
}

impl View for Relay {
    type V = RelayView;

    closed spec fn view(&self) -> RelayView {
        RelayView { secret: self.secret@, state: self.state }
    }
}

impl Relay {
    /// A relay that checks handshakes against the secret of `config`: it
    /// asks for a tunnel connection.
    pub fn new(config: &Config) -> (relay: Relay)
        ensures
            relay@ == RelayView::start(config@.secret),
            relay@.secret.len() >= 1,
    {
        Relay { secret: slice_to_vec(config.secret()), state: RelayState::WaitTunnel }
    }

    /// Where the relay stands.
    pub fn state(&self) -> (state: RelayState)
        ensures
            state == self@.state,
    {
        self.state
    }

    /// The operation that the relay is waiting on.
    pub fn action(&self) -> (action: RelayAction)
        ensures
            action == self@.action(),
    {
        match self.state {
            RelayState::WaitTunnel => RelayAction::AcceptTunnel,
            RelayState::Validating => RelayAction::ReadHandshake(self.secret.len()),
            RelayState::Rejecting(reason) => RelayAction::RejectTunnel(reason),
            RelayState::WaitConsumer => RelayAction::AcceptConsumer,
            RelayState::Forwarding => RelayAction::Forward,
        }
    }

    /// Takes note of `event` and says what to do next.
    pub fn step(&mut self, event: RelayEvent<'_>) -> (action: RelayAction)
        ensures
            final(self)@ == old(self)@.after(event),
            action == final(self)@.action(),
    {
        match (self.state, event) {
            (RelayState::WaitTunnel, RelayEvent::TunnelAccepted) => {
                self.state = RelayState::Validating;
            },
            (RelayState::Validating, RelayEvent::HandshakeRead(received)) => {
                match validate_handshake(received, self.secret.as_slice()) {
                    Ok(_) => {
                        self.state = RelayState::WaitConsumer;
                    },
                    Err(reason) => {
                        self.state = RelayState::Rejecting(reason);
                    },
                }
            },
            (RelayState::Rejecting(_), RelayEvent::TunnelClosed) => {
                self.state = RelayState::WaitTunnel;
            },
            (RelayState::WaitConsumer, RelayEvent::ConsumerAccepted) => {
                self.state = RelayState::Forwarding;
            },
            (RelayState::Forwarding, RelayEvent::PairEnded(_)) => {
                self.state = RelayState::WaitTunnel;
            },
            _ => {},
        }
        self.action()
    }
}

/// Handshake correctness at the relay. A tunnel connection under validation
/// goes on to be paired exactly when the first bytes it sent, as many as the
/// secret has, are the secret. Otherwise the relay asks for it to be closed,
/// and for nothing else until it is.
pub proof fn lemma_handshake_decides(v: RelayView, sent: Seq<u8>)
    requires
        v.state == RelayState::Validating,
    ensures
        v.secret.is_prefix_of(sent) ==> v.after_handshake(exact_read(sent, v.secret.len())).action()
            == RelayAction::AcceptConsumer,
        !v.secret.is_prefix_of(sent) ==> v.after_handshake(
            exact_read(sent, v.secret.len()),
        ).action() is RejectTunnel,
        v.after_handshake(exact_read(v.secret, v.secret.len())).action()
            == RelayAction::AcceptConsumer,
{
    crate::handshake::lemma_admitted_iff_secret_leads(sent, v.secret);
    crate::handshake::lemma_admitted_iff_secret_leads(v.secret, v.secret);
}

/// A refused connection is never paired. As long as no handshake read gives
/// the secret, the relay neither waits for a consumer nor forwards, whatever
/// else happens: it accepts, reads and closes tunnel connections only.
pub proof fn lemma_no_pair_without_secret(v: RelayView, events: Seq<RelayEvent>)
    requires
        !v.holds_admitted_tunnel(),
        forall|i: int| 0 <= i < events.len() ==> !carries_secret(#[trigger] events[i], v.secret),
    ensures
        !v.run(events).holds_admitted_tunnel(),
        v.run(events).action() != RelayAction::AcceptConsumer,
        v.run(events).action() != RelayAction::Forward,
        v.run(events).secret == v.secret,
    decreases events.len(),
{
    if events.len() > 0 {
        let before = events.drop_last();
        assert forall|i: int| 0 <= i < before.len() implies !carries_secret(
            #[trigger] before[i],
            v.secret,
        ) by {
            assert(before[i] == events[i]);
        }
        lemma_no_pair_without_secret(v, before);
        assert(!carries_secret(events[events.len() - 1], v.secret));
    }
}

/// Sequential pairing. While a pair is forwarded the relay asks for nothing
/// but that: until it is told that the pair has ended, no event brings it to
/// accept, read or admit another tunnel connection.
pub proof fn lemma_one_pair_at_a_time(v: RelayView, events: Seq<RelayEvent>)
    requires
        v.state == RelayState::Forwarding,
        forall|i: int| 0 <= i < events.len() ==> !(#[trigger] events[i] is PairEnded),
    ensures
        v.run(events) == v,
        v.run(events).action() == RelayAction::Forward,
    decreases events.len(),
{
    if events.len() > 0 {
        let before = events.drop_last();
        assert forall|i: int| 0 <= i < before.len() implies !(#[trigger] before[i] is PairEnded) by {
            assert(before[i] == events[i]);
        }
        lemma_one_pair_at_a_time(v, before);
        assert(!(events[events.len() - 1] is PairEnded));
    }
}

/// A tunnel connection is accepted only when none is held: the relay comes
/// to read a handshake from nowhere but the wait for a tunnel connection,
/// and comes to that wait only at the start, after a refused connection was
/// closed, and after a pair ended.
pub proof fn lemma_accepts_only_when_idle(v: RelayView, event: RelayEvent)
    ensures
        v.after(event).state == RelayState::Validating && v.state != RelayState::Validating ==> v.state
            == RelayState::WaitTunnel && event is TunnelAccepted,
        v.after(event).state == RelayState::WaitTunnel && v.state != RelayState::WaitTunnel ==> (
        v.state is Rejecting && event is TunnelClosed) || (v.state == RelayState::Forwarding
            && event is PairEnded),
        v.after(event).state == RelayState::Forwarding && v.state != RelayState::Forwarding
            ==> v.state == RelayState::WaitConsumer && event is ConsumerAccepted,
        v.after(event).secret == v.secret,
{
}

/// The relay never stops on a failure of a connection: a failed accept is
/// asked for again, and the end of a pair, whatever ended it, leads back to
/// the wait for a tunnel connection.
pub proof fn lemma_relay_recovers(v: RelayView, end: ForwardEnd)
    ensures
        v.state == RelayState::WaitTunnel ==> v.after(RelayEvent::TunnelAcceptFailed).action()
            == RelayAction::AcceptTunnel,
        v.state == RelayState::WaitConsumer ==> v.after(RelayEvent::ConsumerAcceptFailed).action()
            == RelayAction::AcceptConsumer,
        v.state == RelayState::Forwarding ==> v.after(RelayEvent::PairEnded(end)).action()
            == RelayAction::AcceptTunnel,
        v.state is Rejecting ==> v.after(RelayEvent::TunnelClosed).action()
            == RelayAction::AcceptTunnel,
{
}

} // verus!
