//! The client's reconnect loop: dial the relay, send the handshake, dial the
//! local service, forward until the pair ends, pause, and start over. A dial
//! that fails is tried again after the same pause, for as long as it takes.

use crate::config::Config;
use crate::forward::ForwardEnd;
use crate::handshake::{exact_read, verdict};
use vstd::prelude::*;
use vstd::slice::slice_to_vec;

verus! {

/// The pause before the relay is dialed again, in seconds, where nothing
/// else was asked for.
pub const DEFAULT_BACKOFF_SECS: u64 = 5;

/// Where the client stands.
#[derive(Clone, Copy, Debug, PartialEq, Eq, Structural)]
pub enum ClientState {
    /// Connecting to the relay.
    DialRelay,
    /// Writing the secret to the relay connection.
    SendHandshake,
    /// Connecting to the local service, the relay connection open.
    DialLocal,
    /// Closing the relay connection, the local service being out of reach.
    DropRelay,
    /// Pausing before the relay is dialed again: after a dial that failed
    /// and after a pair that ended.
    Backoff,
    /// A pair is being forwarded.
    Forwarding,
}

/// What the client asks for next.
#[derive(Clone, Copy, Debug, PartialEq, Eq, Structural)]
pub enum ClientAction {
    /// Connect to the relay's public address.
    DialRelay,
    /// Write the whole secret to the relay connection, with nothing around
    /// it.
    SendHandshake,
    /// Connect to the local service.
    DialLocal,
    /// Close the relay connection.
    CloseRelay,
    /// Let this many seconds pass.
    Wait(u64),
    /// Forward between the relay connection and the local connection until
    /// the pair ends.
    Forward,
}

/// Something that happened at the client.
#[derive(Clone, Copy, Debug, PartialEq, Eq, Structural)]
pub enum ClientEvent {
    /// The relay took the connection.
    RelayConnected,
    /// The relay could not be reached.
    RelayUnreachable,
    /// The write of the secret came back: `true` if every byte was written.
    HandshakeSent(bool),
    /// The local service took the connection.
    LocalConnected,
    /// The local service could not be reached.
    LocalUnreachable,
    /// The relay connection was closed.
    RelayClosed,
    /// The pause is over.
    WaitOver,
    /// The pair ended and both its connections were closed.
    PairEnded(ForwardEnd),
}

/// A client as a mathematical value.
pub struct ClientView {
    pub secret: Seq<u8>,
    pub backoff_secs: u64,
    pub state: ClientState,
}

impl ClientView {
    /// A client that has just been started.
    pub open spec fn start(secret: Seq<u8>, backoff_secs: u64) -> ClientView {
        ClientView { secret, backoff_secs, state: ClientState::DialRelay }
    }

    /// The client in another state, with the same secret and pause.
    pub open spec fn at(self, state: ClientState) -> ClientView {
        ClientView { state, ..self }
    }

    /// The operation that the client is waiting on.
    pub open spec fn action(self) -> ClientAction {
        match self.state {
            ClientState::DialRelay => ClientAction::DialRelay,
            ClientState::SendHandshake => ClientAction::SendHandshake,
            ClientState::DialLocal => ClientAction::DialLocal,
            ClientState::DropRelay => ClientAction::CloseRelay,
            ClientState::Backoff => ClientAction::Wait(self.backoff_secs),
            ClientState::Forwarding => ClientAction::Forward,
        }
    }

    /// The client after `event`. The local service is dialed whether or not
    /// the secret could be written; the end of a pair, whatever ended it, is
    /// followed by the pause; an event that does not answer the operation
    /// asked for changes nothing.
    pub open spec fn after(self, event: ClientEvent) -> ClientView {
        match (self.state, event) {
            (ClientState::DialRelay, ClientEvent::RelayConnected) => self.at(
                ClientState::SendHandshake,
            ),
            (ClientState::DialRelay, ClientEvent::RelayUnreachable) => self.at(
                ClientState::Backoff,
            ),
            (ClientState::SendHandshake, ClientEvent::HandshakeSent(_)) => self.at(
                ClientState::DialLocal,
            ),
            (ClientState::DialLocal, ClientEvent::LocalConnected) => self.at(
                ClientState::Forwarding,
            ),
            (ClientState::DialLocal, ClientEvent::LocalUnreachable) => self.at(
                ClientState::DropRelay,
            ),
            (ClientState::DropRelay, ClientEvent::RelayClosed) => self.at(ClientState::Backoff),
            (ClientState::Backoff, ClientEvent::WaitOver) => self.at(ClientState::DialRelay),
            (ClientState::Forwarding, ClientEvent::PairEnded(_)) => self.at(
                ClientState::Backoff,
            ),
            _ => self,
        }
    }

    /// The client after each of `events` in turn.
    pub open spec fn run(self, events: Seq<ClientEvent>) -> ClientView
        decreases events.len(),
    {
        if events.len() == 0 {
            self
        } else {
            self.run(events.drop_last()).after(events.last())
        }
    }
}

/// What happens while the relay is out of reach for `failures` dials in a
/// row: each dial fails and each pause runs out.
pub open spec fn failed_dials(failures: nat) -> Seq<ClientEvent>
    decreases failures,
{
    if failures == 0 {
        Seq::empty()
    } else {
        failed_dials((failures - 1) as nat).push(ClientEvent::RelayUnreachable).push(
            ClientEvent::WaitOver,
        )
    }
}

/// The client's reconnect loop.
pub struct Client {
    secret: Vec<u8>,
    backoff_secs: u64,
    state: ClientState,
}

impl View for Client {
    type V = ClientView;

    closed spec fn view(&self) -> ClientView {
        ClientView { secret: self.secret@, backoff_secs: self.backoff_secs, state: self.state }
    }
}

impl Client {
    /// A client that sends the secret of `config` and pauses `backoff_secs`
    /// seconds between dials: it asks for the relay to be dialed.
    pub fn new(config: &Config, backoff_secs: u64) -> (client: Client)
        ensures
            client@ == ClientView::start(config@.secret, backoff_secs),
            client@.secret.len() >= 1,
    {
        Client {
            secret: slice_to_vec(config.secret()),
            backoff_secs,
            state: ClientState::DialRelay,
        }
    }

    /// Where the client stands.
    pub fn state(&self) -> (state: ClientState)
        ensures
            state == self@.state,
    {
        self.state
    }

    /// The bytes to write when the handshake is asked for: the secret, with
    /// no frame, length or terminator.
    pub fn handshake(&self) -> (bytes: &[u8])
        ensures
            bytes@ == self@.secret,
    {
        self.secret.as_slice()
    }

    /// The operation that the client is waiting on.
    pub fn action(&self) -> (action: ClientAction)
        ensures
            action == self@.action(),
    {
        match self.state {
            ClientState::DialRelay => ClientAction::DialRelay,
            ClientState::SendHandshake => ClientAction::SendHandshake,
            ClientState::DialLocal => ClientAction::DialLocal,
            ClientState::DropRelay => ClientAction::CloseRelay,
            ClientState::Backoff => ClientAction::Wait(self.backoff_secs),
            ClientState::Forwarding => ClientAction::Forward,
        }
    }

    /// Takes note of `event` and says what to do next.
    pub fn step(&mut self, event: ClientEvent) -> (action: ClientAction)
        ensures
            final(self)@ == old(self)@.after(event),
            action == final(self)@.action(),
    {
        match (self.state, event) {
            (ClientState::DialRelay, ClientEvent::RelayConnected) => {
                self.state = ClientState::SendHandshake;
            },
            (ClientState::DialRelay, ClientEvent::RelayUnreachable) => {
                self.state = ClientState::Backoff;
            },
            (ClientState::SendHandshake, ClientEvent::HandshakeSent(_)) => {
                self.state = ClientState::DialLocal;
            },
            (ClientState::DialLocal, ClientEvent::LocalConnected) => {
                self.state = ClientState::Forwarding;
            },
            (ClientState::DialLocal, ClientEvent::LocalUnreachable) => {
                self.state = ClientState::DropRelay;
            },
            (ClientState::DropRelay, ClientEvent::RelayClosed) => {
                self.state = ClientState::Backoff;
            },
            (ClientState::Backoff, ClientEvent::WaitOver) => {
                self.state = ClientState::DialRelay;
            },
            (ClientState::Forwarding, ClientEvent::PairEnded(_)) => {
                self.state = ClientState::Backoff;
            },
            _ => {},
        }
        self.action()
    }
}

/// Reconnect liveness. However many times in a row the relay is out of
/// reach, the client answers each failure by pausing for the interval it was
/// given and then dials again; and the first dial that gets through, at once,
/// leads to the handshake, the dial of the local service and forwarding.
pub proof fn lemma_redials_until_reachable(v: ClientView, failures: nat, sent: bool)
    requires
        v.state == ClientState::DialRelay,
    ensures
        v.run(failed_dials(failures)) == v,
        v.run(failed_dials(failures)).action() == ClientAction::DialRelay,
        v.run(failed_dials(failures).push(ClientEvent::RelayUnreachable)).action()
            == ClientAction::Wait(v.backoff_secs),
        v.run(failed_dials(failures).push(ClientEvent::RelayConnected)).action()
            == ClientAction::SendHandshake,
        v.run(
            failed_dials(failures).push(ClientEvent::RelayConnected).push(
                ClientEvent::HandshakeSent(sent),
            ).push(ClientEvent::LocalConnected),
        ).action() == ClientAction::Forward,
    decreases failures,
{
    if failures > 0 {
        lemma_redials_until_reachable(v, (failures - 1) as nat, sent);
        let before = failed_dials((failures - 1) as nat);
        let failed = before.push(ClientEvent::RelayUnreachable);
        assert(failed.drop_last() =~= before);
        assert(failed_dials(failures).drop_last() =~= failed);
    }
    let quiet = failed_dials(failures);
    assert(v.run(quiet) == v);
    let failed = quiet.push(ClientEvent::RelayUnreachable);
    assert(failed.drop_last() =~= quiet);
    let connected = quiet.push(ClientEvent::RelayConnected);
    assert(connected.drop_last() =~= quiet);
    let greeted = connected.push(ClientEvent::HandshakeSent(sent));
    assert(greeted.drop_last() =~= connected);
    let paired = greeted.push(ClientEvent::LocalConnected);
    assert(paired.drop_last() =~= greeted);
    assert(v.run(connected) == v.at(ClientState::SendHandshake));
    assert(v.run(greeted) == v.at(ClientState::DialLocal));
    assert(v.run(paired) == v.at(ClientState::Forwarding));
}

/// The client never gives up. Whatever has happened, it is waiting on some
/// operation, and from a failure it finds its way back to dialing the relay:
/// after a pair ends, however it ended, once the pause is over; after the
/// local service was out of reach, once the relay connection is closed and
/// the pause is over.
pub proof fn lemma_client_recovers(v: ClientView, end: ForwardEnd)
    ensures
        v.state == ClientState::Forwarding ==> {
            &&& v.after(ClientEvent::PairEnded(end)).action() == ClientAction::Wait(
                v.backoff_secs,
            )
            &&& v.after(ClientEvent::PairEnded(end)).after(ClientEvent::WaitOver).action()
                == ClientAction::DialRelay
        },
        v.state == ClientState::DialLocal ==> {
            &&& v.after(ClientEvent::LocalUnreachable).action() == ClientAction::CloseRelay
            &&& v.after(ClientEvent::LocalUnreachable).after(ClientEvent::RelayClosed).action()
                == ClientAction::Wait(v.backoff_secs)
            &&& v.after(ClientEvent::LocalUnreachable).after(ClientEvent::RelayClosed).after(
                ClientEvent::WaitOver,
            ).action() == ClientAction::DialRelay
        },
        v.state == ClientState::SendHandshake ==> v.after(ClientEvent::HandshakeSent(false)).action()
            == ClientAction::DialLocal,
        v.state == ClientState::Backoff ==> forall|event: ClientEvent|
            event != ClientEvent::WaitOver ==> (#[trigger] v.after(event)).action()
                == ClientAction::Wait(v.backoff_secs),
{
}

/// One tunnel at a time. While a pair is forwarded the client asks for
/// nothing but that, until it is told that the pair has ended.
pub proof fn lemma_one_tunnel_at_a_time(v: ClientView, events: Seq<ClientEvent>)
    requires
        v.state == ClientState::Forwarding,
        forall|i: int| 0 <= i < events.len() ==> !(#[trigger] events[i] is PairEnded),
    ensures
        v.run(events) == v,
        v.run(events).action() == ClientAction::Forward,
    decreases events.len(),
{
    if events.len() > 0 {
        let before = events.drop_last();
        assert forall|i: int| 0 <= i < before.len() implies !(#[trigger] before[i] is PairEnded) by {
            assert(before[i] == events[i]);
        }
        lemma_one_tunnel_at_a_time(v, before);
        assert(!(events[events.len() - 1] is PairEnded));
    }
}

/// What the client sends for a handshake, a relay with the same secret
/// admits.
pub proof fn lemma_handshake_admitted(v: ClientView)
    ensures
        verdict(exact_read(v.secret, v.secret.len()), v.secret) is Ok,
{
    crate::handshake::lemma_admitted_iff_secret_leads(v.secret, v.secret);
}

} // verus!
