//! The forwarder: two streams paired, bytes copied both ways until either
//! stream ends.
//!
//! The forwarder never touches a stream. It is told what a read or a write
//! gave and says, for each direction, the next operation to perform. The two
//! directions are independent: each holds at most one chunk, which is written
//! in full to the other stream before anything more is read from its own, and
//! neither waits for the other. The first read that gives no bytes, the first
//! failed read or the first failed write ends the pair for both.

use vstd::prelude::*;
use vstd::slice::slice_to_vec;

verus! {

/// The largest chunk worth reading at once.
pub const CHUNK_SIZE: usize = 4096;

/// One of the two streams of a pair.
#[derive(Clone, Copy, Debug, PartialEq, Eq, Structural)]
pub enum Side {
    /// The connection between relay and client.
    Tunnel,
    /// The consumer connection at the relay, the local service at the client.
    Local,
}

impl Side {
    /// The other stream of the pair.
    pub open spec fn peer_of(self) -> Side {
        match self {
            Side::Tunnel => Side::Local,
            Side::Local => Side::Tunnel,
        }
    }

    /// The other stream of the pair.
    #[verifier::when_used_as_spec(peer_of)]
    pub fn peer(self) -> (other: Side)
        ensures
            other == self.peer_of(),
    {
        match self {
            Side::Tunnel => Side::Local,
            Side::Local => Side::Tunnel,
        }
    }
}

/// Why a pair stopped forwarding.
#[derive(Clone, Copy, Debug, PartialEq, Eq, Structural)]
pub enum ForwardEnd {
    /// A read on this stream gave no bytes: its peer closed it in good order.
    Closed(Side),
    /// A read on this stream failed.
    ReadFailed(Side),
    /// A write to this stream failed.
    WriteFailed(Side),
}

impl ForwardEnd {
    /// The stream on which the pair ended.
    pub open spec fn side_of(self) -> Side {
        match self {
            ForwardEnd::Closed(side) => side,
            ForwardEnd::ReadFailed(side) => side,
            ForwardEnd::WriteFailed(side) => side,
        }
    }

    /// The stream on which the pair ended.
    #[verifier::when_used_as_spec(side_of)]
    pub fn side(self) -> (side: Side)
        ensures
            side == self.side_of(),
    {
        match self {
            ForwardEnd::Closed(side) => side,
            ForwardEnd::ReadFailed(side) => side,
            ForwardEnd::WriteFailed(side) => side,
        }
    }

    /// The wording of the ending, as characters.
    pub open spec fn text(self) -> Seq<char> {
        match self {
            ForwardEnd::Closed(Side::Tunnel) => "TunnelStream closed"@,
            ForwardEnd::Closed(Side::Local) => "LocalStream closed"@,
            ForwardEnd::ReadFailed(Side::Tunnel) => "TunnelStream read error"@,
            ForwardEnd::ReadFailed(Side::Local) => "LocalStream read error"@,
            ForwardEnd::WriteFailed(Side::Tunnel) => "TunnelStream write error"@,
            ForwardEnd::WriteFailed(Side::Local) => "LocalStream write error"@,
        }
    }

    /// A few words that name the stream and what happened on it.
    pub fn message(&self) -> (text: &'static str)
        ensures
            text@ == self.text(),
    {
        match self {
            ForwardEnd::Closed(Side::Tunnel) => "TunnelStream closed",
            ForwardEnd::Closed(Side::Local) => "LocalStream closed",
            ForwardEnd::ReadFailed(Side::Tunnel) => "TunnelStream read error",
            ForwardEnd::ReadFailed(Side::Local) => "LocalStream read error",
            ForwardEnd::WriteFailed(Side::Tunnel) => "TunnelStream write error",
            ForwardEnd::WriteFailed(Side::Local) => "LocalStream write error",
        }
    }
}

/// What a read on a stream gave.
#[derive(Clone, Copy, Debug)]
pub enum ReadOutcome<'a> {
    /// The bytes that were read; none means that the stream was closed.
    Bytes(&'a [u8]),
    /// The read failed.
    Failed,
}

/// Something that happened on the streams of a pair.
#[derive(Clone, Copy, Debug)]
pub enum ForwardEvent<'a> {
    /// A read on the given stream came back.
    Read(Side, ReadOutcome<'a>),
    /// The write of the chunk in flight to the given stream came back:
    /// `true` if every byte of it was written.
    Written(Side, bool),
}

impl<'a> ForwardEvent<'a> {
    /// The direction that the event belongs to, named by the stream that
    /// its bytes come from: a read belongs to the stream read, a write to the
    /// peer of the stream written.
    pub open spec fn source(self) -> Side {
        match self {
            ForwardEvent::Read(from, _) => from,
            ForwardEvent::Written(to, _) => to.peer_of(),
        }
    }
}

/// Where one direction of a pair stands.
#[derive(Clone, Copy, Debug, PartialEq, Eq, Structural)]
pub enum LanePhase {
    /// Waiting for bytes from its stream.
    Reading,
    /// Its chunk is being written to the other stream.
    Writing,
}

/// What the forwarder asks for in one direction.
#[derive(Clone, Copy, Debug, PartialEq, Eq, Structural)]
pub enum ForwardAction {
    /// Read from the given stream.
    Read(Side),
    /// Write the whole chunk in flight to the given stream.
    Write(Side),
    /// Close both streams in both directions; the pair is over.
    Close(ForwardEnd),
}

/// One direction of a pair as a mathematical value: where it stands, its
/// chunk in flight, and all that went through it.
pub struct LaneView {
    pub phase: LanePhase,
    /// The chunk read from the source and not yet written in full.
    pub chunk: Seq<u8>,
    /// Every byte taken in from the source, in order.
    pub taken: Seq<u8>,
    /// Every byte of the chunks written in full to the destination, in order.
    pub delivered: Seq<u8>,
}

impl LaneView {
    /// A direction that has carried nothing yet.
    pub open spec fn idle() -> LaneView {
        LaneView {
            phase: LanePhase::Reading,
            chunk: Seq::empty(),
            taken: Seq::empty(),
            delivered: Seq::empty(),
        }
    }

    /// The direction after `bytes` were read from its source.
    pub open spec fn loaded(self, bytes: Seq<u8>) -> LaneView {
        LaneView {
            phase: LanePhase::Writing,
            chunk: bytes,
            taken: self.taken + bytes,
            delivered: self.delivered,
        }
    }

    /// The direction after its chunk was written in full.
    pub open spec fn unloaded(self) -> LaneView {
        LaneView {
            phase: LanePhase::Reading,
            chunk: Seq::empty(),
            taken: self.taken,
            delivered: self.delivered + self.chunk,
        }
    }

    /// Nothing is lost, repeated or reordered: what was taken in is, byte
    /// for byte, what was delivered followed by the chunk in flight, and a
    /// chunk is held exactly while it is being written.
    pub open spec fn faithful(self) -> bool {
        &&& self.taken == self.delivered + self.chunk
        &&& self.phase == LanePhase::Reading <==> self.chunk.len() == 0
    }
}

/// A forwarder as a mathematical value: its two directions, each named by
/// the stream it reads, and how the pair ended if it has.
pub struct ForwarderView {
    pub from_tunnel: LaneView,
    pub from_local: LaneView,
    pub end: Option<ForwardEnd>,
}

impl ForwarderView {
    /// A forwarder on a pair that has carried nothing yet.
    pub open spec fn start() -> ForwarderView {
        ForwarderView { from_tunnel: LaneView::idle(), from_local: LaneView::idle(), end: None }
    }

    /// The direction that reads `from`.
    pub open spec fn lane(self, from: Side) -> LaneView {
        match from {
            Side::Tunnel => self.from_tunnel,
            Side::Local => self.from_local,
        }
    }

    /// The forwarder with `lane` for the direction that reads `from`.
    pub open spec fn with_lane(self, from: Side, lane: LaneView) -> ForwarderView {
        match from {
            Side::Tunnel => ForwarderView { from_tunnel: lane, ..self },
            Side::Local => ForwarderView { from_local: lane, ..self },
        }
    }

    /// The forwarder once the pair has ended with `end`.
    pub open spec fn ended(self, end: ForwardEnd) -> ForwarderView {
        ForwarderView { end: Some(end), ..self }
    }

    /// Every byte taken in from `from`, in order.
    pub open spec fn taken(self, from: Side) -> Seq<u8> {
        self.lane(from).taken
    }

    /// Every byte of the chunks written in full to `to`, in order.
    pub open spec fn delivered(self, to: Side) -> Seq<u8> {
        self.lane(to.peer_of()).delivered
    }

    /// The chunk in flight to `to`: bytes taken in from its peer that no
    /// completed write has carried there.
    pub open spec fn chunk(self, to: Side) -> Seq<u8> {
        self.lane(to.peer_of()).chunk
    }

    /// What the forwarder asks for in the direction that reads `from`.
    pub open spec fn wanted(self, from: Side) -> ForwardAction {
        match self.end {
            Some(end) => ForwardAction::Close(end),
            None => match self.lane(from).phase {
                LanePhase::Reading => ForwardAction::Read(from),
                LanePhase::Writing => ForwardAction::Write(from.peer_of()),
            },
        }
    }

    /// The forwarder after a read on `from` gave `bytes`, or failed if
    /// `bytes` is `None`. Only the direction that reads `from` changes,
    /// unless the read ends the pair. A read that was not asked for, or that
    /// comes after the end, changes nothing.
    pub open spec fn after_read(self, from: Side, bytes: Option<Seq<u8>>) -> ForwarderView {
        if self.end is Some || self.lane(from).phase != LanePhase::Reading {
            self
        } else {
            match bytes {
                None => self.ended(ForwardEnd::ReadFailed(from)),
                Some(chunk) => if chunk.len() == 0 {
                    self.ended(ForwardEnd::Closed(from))
                } else {
                    self.with_lane(from, self.lane(from).loaded(chunk))
                },
            }
        }
    }

    /// The forwarder after the write of the chunk in flight to `to` came
    /// back. Only the direction that writes `to` changes, unless the write
    /// failed, which ends the pair. A write that was not asked for, or that
    /// comes after the end, changes nothing.
    pub open spec fn after_write(self, to: Side, complete: bool) -> ForwarderView {
        if self.end is Some || self.lane(to.peer_of()).phase != LanePhase::Writing {
            self
        } else if complete {
            self.with_lane(to.peer_of(), self.lane(to.peer_of()).unloaded())
        } else {
            self.ended(ForwardEnd::WriteFailed(to))
        }
    }

    /// The forwarder after `event`.
    pub open spec fn after(self, event: ForwardEvent) -> ForwarderView {
        match event {
            ForwardEvent::Read(from, ReadOutcome::Bytes(bytes)) => self.after_read(
                from,
                Some(bytes@),
            ),
            ForwardEvent::Read(from, ReadOutcome::Failed) => self.after_read(from, None),
            ForwardEvent::Written(to, complete) => self.after_write(to, complete),
        }
    }

    /// The forwarder after each of `events` in turn.
    pub open spec fn run(self, events: Seq<ForwardEvent>) -> ForwarderView
        decreases events.len(),
    {
        if events.len() == 0 {
            self
        } else {
            self.run(events.drop_last()).after(events.last())
        }
    }

    /// Both directions are faithful.
    pub open spec fn faithful(self) -> bool {
        self.from_tunnel.faithful() && self.from_local.faithful()
    }
}

/// One direction of a pair: the chunk in flight and, for the proofs, a
/// record of what went through.
struct Lane {
    phase: LanePhase,
    chunk: Vec<u8>,
    taken: Ghost<Seq<u8>>,
    delivered: Ghost<Seq<u8>>,
}

impl Lane {
    spec fn view(&self) -> LaneView {
        LaneView {
            phase: self.phase,
            chunk: self.chunk@,
            taken: self.taken@,
            delivered: self.delivered@,
        }
    }

    fn idle() -> (lane: Lane)
        ensures
            lane.view() == LaneView::idle(),
    {
        Lane {
            phase: LanePhase::Reading,
            chunk: Vec::new(),
            taken: Ghost(Seq::empty()),
            delivered: Ghost(Seq::empty()),
        }
    }

    fn load(&mut self, bytes: &[u8])
        ensures
            final(self).view() == old(self).view().loaded(bytes@),
    {
        self.phase = LanePhase::Writing;
        self.chunk = slice_to_vec(bytes);
        proof {
            self.taken@ = self.taken@ + bytes@;
        }
    }

    fn unload(&mut self)
        ensures
            final(self).view() == old(self).view().unloaded(),
    {
        proof {
            self.delivered@ = self.delivered@ + self.chunk@;
        }
        self.phase = LanePhase::Reading;
        self.chunk = Vec::new();
    }
}

/// The forwarder of one pair.
pub struct Forwarder {
    from_tunnel: Lane,
    from_local: Lane,
    end: Option<ForwardEnd>,
}

impl View for Forwarder {
    type V = ForwarderView;

    closed spec fn view(&self) -> ForwarderView {
        ForwarderView {
            from_tunnel: self.from_tunnel.view(),
            from_local: self.from_local.view(),
            end: self.end,
        }
    }
}

impl Forwarder {
    /// A forwarder for a fresh pair: it asks for a read on both streams.
    pub fn new() -> (forwarder: Forwarder)
        ensures
            forwarder@ == ForwarderView::start(),
    {
        Forwarder { from_tunnel: Lane::idle(), from_local: Lane::idle(), end: None }
    }

    /// How the pair ended, if it has.
    pub fn end(&self) -> (end: Option<ForwardEnd>)
        ensures
            end == self@.end,
    {
        self.end
    }

    /// Where the direction that reads `from` stands.
    pub fn phase(&self, from: Side) -> (phase: LanePhase)
        ensures
            phase == self@.lane(from).phase,
    {
        match from {
            Side::Tunnel => self.from_tunnel.phase,
            Side::Local => self.from_local.phase,
        }
    }

    /// What the forwarder asks for in the direction that reads `from`.
    pub fn wanted(&self, from: Side) -> (action: ForwardAction)
        ensures
            action == self@.wanted(from),
    {
        match self.end {
            Some(end) => ForwardAction::Close(end),
            None => match self.phase(from) {
                LanePhase::Reading => ForwardAction::Read(from),
                LanePhase::Writing => ForwardAction::Write(from.peer()),
            },
        }
    }

    /// The chunk in flight to `to`: the bytes to write when a write to `to`
    /// is asked for.
    pub fn chunk(&self, to: Side) -> (chunk: &[u8])
        ensures
            chunk@ == self@.chunk(to),
    {
        match to {
            Side::Tunnel => self.from_local.chunk.as_slice(),
            Side::Local => self.from_tunnel.chunk.as_slice(),
        }
    }

    /// Takes note of `event`.
    ///
    /// Bytes read from one stream become the chunk to write to the other;
    /// once that chunk is written in full, its direction reads again. A read
    /// that gives no bytes, a failed read and a failed write each end the
    /// pair. An event changes its own direction only; one that does not
    /// answer the operation asked for there is passed over.
    pub fn step(&mut self, event: ForwardEvent<'_>)
        ensures
            final(self)@ == old(self)@.after(event),
    {
        if self.end.is_some() {
            return ;
        }
        match event {
            ForwardEvent::Read(from, outcome) => {
                if let LanePhase::Reading = self.phase(from) {
                    match outcome {
                        ReadOutcome::Failed => {
                            self.end = Some(ForwardEnd::ReadFailed(from));
                        },
                        ReadOutcome::Bytes(bytes) => {
                            if bytes.len() == 0 {
                                self.end = Some(ForwardEnd::Closed(from));
                            } else {
                                match from {
                                    Side::Tunnel => self.from_tunnel.load(bytes),
                                    Side::Local => self.from_local.load(bytes),
                                }
                            }
                        },
                    }
                }
            },
            ForwardEvent::Written(to, complete) => {
                if let LanePhase::Writing = self.phase(to.peer()) {
                    if complete {
                        match to {
                            Side::Tunnel => self.from_local.unload(),
                            Side::Local => self.from_tunnel.unload(),
                        }
                    } else {
                        self.end = Some(ForwardEnd::WriteFailed(to));
                    }
                }
            },
        }
    }
}

/// One event never breaks fidelity.
pub proof fn lemma_event_keeps_faithful(v: ForwarderView, event: ForwardEvent)
    requires
        v.faithful(),
    ensures
        v.after(event).faithful(),
{
    let w = v.after(event);
    assert(w.from_tunnel.taken =~= w.from_tunnel.delivered + w.from_tunnel.chunk);
    assert(w.from_local.taken =~= w.from_local.delivered + w.from_local.chunk);
}

/// Byte fidelity, in each direction. Whatever happens on the streams of a
/// pair, and in whatever order it is reported, the bytes delivered to one
/// stream are the bytes taken in from the other, in order, with nothing lost,
/// repeated or reordered, short only of the one chunk of that direction whose
/// write has not been completed. Whenever a direction holds no chunk, its
/// destination has been given all that its source sent.
pub proof fn lemma_bytes_faithful(events: Seq<ForwardEvent>, from: Side)
    ensures
        ForwarderView::start().run(events).faithful(),
        ({
            let v = ForwarderView::start().run(events);
            let to = from.peer_of();
            &&& v.taken(from) == v.delivered(to) + v.chunk(to)
            &&& v.delivered(to).is_prefix_of(v.taken(from))
            &&& v.chunk(to).len() == 0 ==> v.delivered(to) == v.taken(from)
            &&& v.lane(from).phase == LanePhase::Reading ==> v.delivered(to) == v.taken(from)
        }),
    decreases events.len(),
{
    let start = ForwarderView::start();
    if events.len() == 0 {
        assert(start.from_tunnel.taken =~= start.from_tunnel.delivered + start.from_tunnel.chunk);
        assert(start.from_local.taken =~= start.from_local.delivered + start.from_local.chunk);
    } else {
        lemma_bytes_faithful(events.drop_last(), from);
        lemma_event_keeps_faithful(start.run(events.drop_last()), events.last());
    }
    let v = start.run(events);
    let to = from.peer_of();
    assert(to.peer_of() == from);
    let given = v.delivered(to);
    assert(v.taken(from).subrange(0, given.len() as int) =~= given);
    if v.chunk(to).len() == 0 {
        assert(v.taken(from) =~= given);
    }
}

/// The two directions are independent. While the pair has not ended, an
/// event of the other direction that does not end the pair leaves a
/// direction as it was, asking for what it asked for; and a direction with no
/// chunk in flight asks for a read of its stream, whatever the other is
/// doing.
pub proof fn lemma_directions_independent(v: ForwarderView, event: ForwardEvent, from: Side)
    requires
        v.end is None,
        event.source() != from,
        v.after(event).end is None,
    ensures
        v.after(event).lane(from) == v.lane(from),
        v.after(event).wanted(from) == v.wanted(from),
        v.lane(from).phase == LanePhase::Reading ==> v.wanted(from) == ForwardAction::Read(from)
            && v.after(event).wanted(from) == ForwardAction::Read(from),
        v.lane(from).phase == LanePhase::Writing ==> v.wanted(from) == ForwardAction::Write(
            from.peer_of(),
        ),
{
}

/// A direction that is held up holds nothing else up. However many events
/// of the other direction are reported, as long as none of them ends the
/// pair, a direction stays as it was, while the other takes in and delivers
/// its bytes.
pub proof fn lemma_stalled_direction_holds_nothing_up(
    v: ForwarderView,
    events: Seq<ForwardEvent>,
    from: Side,
)
    requires
        forall|i: int| 0 <= i < events.len() ==> (#[trigger] events[i]).source() != from,
        v.run(events).end is None,
    ensures
        v.end is None,
        v.run(events).lane(from) == v.lane(from),
        v.run(events).wanted(from) == v.wanted(from),
    decreases events.len(),
{
    if events.len() > 0 {
        let before = events.drop_last();
        let last = events.last();
        assert forall|i: int| 0 <= i < before.len() implies (#[trigger] before[i]).source()
            != from by {
            assert(before[i] == events[i]);
        }
        assert(v.run(before).end is None) by {
            if v.run(before).end is Some {
                assert(v.run(before).after(last) == v.run(before));
            }
        }
        lemma_stalled_direction_holds_nothing_up(v, before, from);
        assert(last == events[events.len() - 1]);
        lemma_directions_independent(v.run(before), last, from);
    }
}

/// Termination propagates. When a read that was asked for on either stream
/// gives no bytes, the pair ends at once: in both directions the forwarder
/// asks for both streams to be closed, and names the stream that was closed
/// first. The same holds of a failed read and of a failed write.
pub proof fn lemma_close_ends_pair(v: ForwarderView, side: Side, other: Side)
    requires
        v.end is None,
    ensures
        v.lane(side).phase == LanePhase::Reading ==> v.after_read(side, Some(Seq::empty())).wanted(
            other,
        ) == ForwardAction::Close(ForwardEnd::Closed(side)),
        v.lane(side).phase == LanePhase::Reading ==> v.after_read(side, None).wanted(other)
            == ForwardAction::Close(ForwardEnd::ReadFailed(side)),
        v.lane(side.peer_of()).phase == LanePhase::Writing ==> v.after_write(side, false).wanted(
            other,
        ) == ForwardAction::Close(ForwardEnd::WriteFailed(side)),
{
}

/// A pair that has ended stays ended: no event brings the forwarder to ask
/// for anything but the closing of both streams.
pub proof fn lemma_ended_is_final(v: ForwarderView, events: Seq<ForwardEvent>, from: Side)
    requires
        v.end is Some,
    ensures
        v.run(events) == v,
        v.run(events).wanted(from) == ForwardAction::Close(v.end->Some_0),
    decreases events.len(),
{
    if events.len() > 0 {
        lemma_ended_is_final(v, events.drop_last(), from);
    }
}

/// Each direction holds one chunk at most: it asks for a write only with
/// bytes to write, and for a read only with no chunk left over from before.
pub proof fn lemma_one_chunk_in_flight(events: Seq<ForwardEvent>, from: Side)
    ensures
        ({
            let lane = ForwarderView::start().run(events).lane(from);
            &&& lane.phase == LanePhase::Writing ==> lane.chunk.len() > 0
            &&& lane.phase == LanePhase::Reading ==> lane.chunk.len() == 0
        }),
{
    lemma_bytes_faithful(events, from);
}

} // verus!
