//! The relay engine: moves bytes both ways between two connected endpoints.
//!
//! A driver owns the endpoints and one scratch buffer. It asks a `Relay` for
//! the next action (wait for readiness, try a read, write a chunk, stop),
//! performs it, and reports the outcome back.
use vstd::prelude::*;

verus! {

/// One of the two endpoints that a relay joins.
#[derive(Clone, Copy, Debug, PartialEq, Eq, Structural)]
pub enum Side {
    Left,
    Right,
}

impl Side {
    pub open spec fn opposite(self) -> Side {
        match self {
            Side::Left => Side::Right,
            Side::Right => Side::Left,
        }
    }

    /// The endpoint that bytes read from `self` are written to.
    pub fn other(self) -> (r: Side)
        ensures
            r == self.opposite(),
    {
        match self {
            Side::Left => Side::Right,
            Side::Right => Side::Left,
        }
    }
}

/// What a non-blocking read attempt reported.
#[derive(Clone, Copy, Debug, PartialEq, Eq, Structural)]
pub enum ReadOutcome {
    /// This many bytes were placed at the start of the buffer; zero means
    /// that the peer has disconnected.
    Bytes(usize),
    /// No data after all: the readiness hint was stale.
    WouldBlock,
    /// Any other error of the transport.
    Failed,
}

/// Why a relay ended.
#[derive(Clone, Copy, Debug, PartialEq, Eq, Structural)]
pub enum Termination {
    /// A read from this side returned no bytes: its peer is gone.
    Disconnected(Side),
    /// A read from this side failed.
    ReadFailed(Side),
    /// Waiting for this side to become readable failed.
    WaitFailed(Side),
    /// Writing to this side failed.
    WriteFailed(Side),
}

/// Where a relay stands between two actions of its driver.
#[derive(Clone, Copy, Debug, PartialEq, Eq, Structural)]
pub enum Phase {
    /// Waiting for either endpoint to become readable.
    Waiting,
    /// This side was reported readable; a read attempt is due.
    Reading(Side),
    /// `len` bytes read from `from` are in the buffer, to be written out.
    Writing { from: Side, len: usize },
    /// The relay is over; both endpoints are to be released.
    Stopped(Termination),
}

/// What the driver of a relay must do next.
#[derive(Clone, Copy, Debug, PartialEq, Eq, Structural)]
pub enum Action {
    /// Wait until either endpoint is readable, and report which one.
    WaitReadable,
    /// Attempt a non-blocking read of this side into the buffer.
    TryRead(Side),
    /// Write the first `len` bytes of the buffer, all of them, to `to`.
    WriteAll { to: Side, len: usize },
    /// Release both endpoints; the relay ended for this reason.
    Stop(Termination),
}

/// The phase that a read outcome on `from` leads to.
pub open spec fn read_step(from: Side, outcome: ReadOutcome) -> Phase {
    match outcome {
        ReadOutcome::Bytes(n) => if n == 0 {
            Phase::Stopped(Termination::Disconnected(from))
        } else {
            Phase::Writing { from, len: n }
        },
        ReadOutcome::WouldBlock => Phase::Waiting,
        ReadOutcome::Failed => Phase::Stopped(Termination::ReadFailed(from)),
    }
}

/// Decides what follows a read attempt on `from`, made after `from` was
/// reported readable: stop on a disconnect or an error, forward the bytes
/// read, or go back to waiting when the readiness hint was stale.
pub fn splice_source_to_dest(from: Side, outcome: ReadOutcome) -> (r: Phase)
    ensures
        r == read_step(from, outcome),
{
    match outcome {
        ReadOutcome::Bytes(n) => {
            if n == 0 {
                Phase::Stopped(Termination::Disconnected(from))
            } else {
                Phase::Writing { from, len: n }
            }
        },
        ReadOutcome::WouldBlock => Phase::Waiting,
        ReadOutcome::Failed => Phase::Stopped(Termination::ReadFailed(from)),
    }
}

/// The abstract state of a relay: its phase and the byte streams so far.
pub struct RelayModel {
    pub phase: Phase,
    /// Every byte read from the left endpoint, in order.
    pub read_left: Seq<u8>,
    /// Every byte read from the right endpoint, in order.
    pub read_right: Seq<u8>,
    /// Bytes of the left stream written to the right endpoint.
    pub sent_right: Seq<u8>,
    /// Bytes of the right stream written to the left endpoint.
    pub sent_left: Seq<u8>,
    /// The chunk in the buffer that is being written out.
    pub pending: Seq<u8>,
}

impl RelayModel {
    /// The model of a fresh relay.
    pub open spec fn initial() -> RelayModel {
        RelayModel {
            phase: Phase::Waiting,
            read_left: Seq::empty(),
            read_right: Seq::empty(),
            sent_right: Seq::empty(),
            sent_left: Seq::empty(),
            pending: Seq::empty(),
        }
    }

    /// Every byte read from side `s`.
    pub open spec fn read_from(self, s: Side) -> Seq<u8> {
        match s {
            Side::Left => self.read_left,
            Side::Right => self.read_right,
        }
    }

    /// The bytes of side `s`'s stream written to the opposite side.
    pub open spec fn forwarded_from(self, s: Side) -> Seq<u8> {
        match s {
            Side::Left => self.sent_right,
            Side::Right => self.sent_left,
        }
    }

    pub open spec fn with_read(self, s: Side, chunk: Seq<u8>) -> RelayModel {
        match s {
            Side::Left => RelayModel { read_left: self.read_left + chunk, ..self },
            Side::Right => RelayModel { read_right: self.read_right + chunk, ..self },
        }
    }

    pub open spec fn with_forwarded(self, s: Side, chunk: Seq<u8>) -> RelayModel {
        match s {
            Side::Left => RelayModel { sent_right: self.sent_right + chunk, ..self },
            Side::Right => RelayModel { sent_left: self.sent_left + chunk, ..self },
        }
    }

    /// Whether the pending chunk is part of side `s`'s stream and not
    /// (or, after a failed write, never) delivered.
    pub open spec fn holds_chunk_of(self, s: Side) -> bool {
        match self.phase {
            Phase::Writing { from, len } => from == s,
            Phase::Stopped(Termination::WriteFailed(to)) => to == s.opposite(),
            _ => false,
        }
    }

    /// What has been read from side `s` and is not yet delivered.
    pub open spec fn undelivered(self, s: Side) -> Seq<u8> {
        if self.holds_chunk_of(s) {
            self.pending
        } else {
            Seq::empty()
        }
    }

    /// Each stream is delivered in order, without loss or duplication, up to
    /// the chunk in flight.
    pub open spec fn wf(self) -> bool {
        &&& self.read_from(Side::Left) == self.forwarded_from(Side::Left) + self.undelivered(
            Side::Left,
        )
        &&& self.read_from(Side::Right) == self.forwarded_from(Side::Right) + self.undelivered(
            Side::Right,
        )
        &&& self.phase matches Phase::Writing { len, .. } ==> len > 0 && self.pending.len()
            == len
    }

    /// The action that the phase asks of the driver.
    pub open spec fn action(self) -> Action {
        match self.phase {
            Phase::Waiting => Action::WaitReadable,
            Phase::Reading(s) => Action::TryRead(s),
            Phase::Writing { from, len } => Action::WriteAll { to: from.opposite(), len },
            Phase::Stopped(t) => Action::Stop(t),
        }
    }

    /// After the wait for readiness reported `side`, successfully or not.
    pub open spec fn after_readable(self, side: Side, ok: bool) -> RelayModel {
        RelayModel {
            phase: if ok {
                Phase::Reading(side)
            } else {
                Phase::Stopped(Termination::WaitFailed(side))
            },
            ..self
        }
    }

    /// After a read attempt gave `outcome`, with `buf` the buffer read into.
    pub open spec fn after_read(self, outcome: ReadOutcome, buf: Seq<u8>) -> RelayModel {
        let from = match self.phase {
            Phase::Reading(s) => s,
            _ => Side::Left,
        };
        let next = read_step(from, outcome);
        match next {
            Phase::Writing { from, len } => {
                let chunk = buf.take(len as int);
                RelayModel { phase: next, pending: chunk, ..self.with_read(from, chunk) }
            },
            _ => RelayModel { phase: next, ..self },
        }
    }

    /// After the pending chunk was written out, successfully or not.
    pub open spec fn after_written(self, ok: bool) -> RelayModel {
        let from = match self.phase {
            Phase::Writing { from, .. } => from,
            _ => Side::Left,
        };
        if ok {
            RelayModel {
                phase: Phase::Waiting,
                pending: Seq::empty(),
                ..self.with_forwarded(from, self.pending)
            }
        } else {
            RelayModel { phase: Phase::Stopped(Termination::WriteFailed(from.opposite())), ..self }
        }
    }
}

/// The state of one relay between two endpoints. It holds no endpoint and
/// no buffer: a driver performs each action and reports its outcome.
pub struct Relay {
    phase: Phase,
    model: Ghost<RelayModel>,
}

impl View for Relay {
    type V = RelayModel;

    closed spec fn view(&self) -> RelayModel {
        self.model@
    }
}

impl Relay {
    pub closed spec fn wf(&self) -> bool {
        &&& self.phase == self.model@.phase
        &&& self.model@.wf()
    }

    /// A relay that has moved nothing yet and waits for readiness.
    pub fn new() -> (r: Relay)
        ensures
            r.wf(),
            r@ == RelayModel::initial(),
    {
        Relay { phase: Phase::Waiting, model: Ghost(RelayModel::initial()) }
    }

    pub fn phase(&self) -> (r: Phase)
        requires
            self.wf(),
        ensures
            r == self@.phase,
    {
        self.phase
    }

    /// What the driver must do next.
    pub fn next_action(&self) -> (r: Action)
        requires
            self.wf(),
        ensures
            r == self@.action(),
    {
        match self.phase {
            Phase::Waiting => Action::WaitReadable,
            Phase::Reading(s) => Action::TryRead(s),
            Phase::Writing { from, len } => Action::WriteAll { to: from.other(), len },
            Phase::Stopped(t) => Action::Stop(t),
        }
    }

    /// Reports that waiting for readiness ended on `side`: it is readable
    /// when `ok`, else the wait failed and the relay stops.
    pub fn on_readable(&mut self, side: Side, ok: bool) -> (r: Action)
        requires
            old(self).wf(),
            old(self)@.phase == Phase::Waiting,
        ensures
            final(self).wf(),
            final(self)@ == old(self)@.after_readable(side, ok),
            r == final(self)@.action(),
    {
        if ok {
            self.phase = Phase::Reading(side);
        } else {
            self.phase = Phase::Stopped(Termination::WaitFailed(side));
        }
        self.model = Ghost(self.model@.after_readable(side, ok));
        self.next_action()
    }

    /// Reports what the read attempt gave; `buf` is the buffer read into,
    /// whose first bytes are those read.
    pub fn on_read(&mut self, outcome: ReadOutcome, buf: &[u8]) -> (r: Action)
        requires
            old(self).wf(),
            old(self)@.phase is Reading,
            outcome matches ReadOutcome::Bytes(n) ==> n <= buf@.len(),
        ensures
            final(self).wf(),
            final(self)@ == old(self)@.after_read(outcome, buf@),
            r == final(self)@.action(),
    {
        let from = match self.phase {
            Phase::Reading(s) => s,
            _ => Side::Left,
        };
        let next = splice_source_to_dest(from, outcome);
        self.phase = next;
        let ghost m = self.model@;
        self.model = Ghost(m.after_read(outcome, buf@));
        proof {
            if let Phase::Writing { from: f, len } = next {
                let chunk = buf@.take(len as int);
                assert(f == from);
                match from {
                    Side::Left => {
                        assert(m.read_left + chunk == m.sent_right + chunk);
                    },
                    Side::Right => {
                        assert(m.read_right + chunk == m.sent_left + chunk);
                    },
                }
            }
        }
        self.next_action()
    }

    /// Reports whether writing the pending chunk out succeeded.
    pub fn on_written(&mut self, ok: bool) -> (r: Action)
        requires
            old(self).wf(),
            old(self)@.phase is Writing,
        ensures
            final(self).wf(),
            final(self)@ == old(self)@.after_written(ok),
            r == final(self)@.action(),
    {
        let from = match self.phase {
            Phase::Writing { from, .. } => from,
            _ => Side::Left,
        };
        if ok {
            self.phase = Phase::Waiting;
        } else {
            self.phase = Phase::Stopped(Termination::WriteFailed(from.other()));
        }
        let ghost m = self.model@;
        self.model = Ghost(m.after_written(ok));
        proof {
            if ok {
                match from {
                    Side::Left => {
                        assert(m.sent_right + m.pending + Seq::<u8>::empty() == m.sent_right + m.pending);
                    },
                    Side::Right => {
                        assert(m.sent_left + m.pending + Seq::<u8>::empty() == m.sent_left + m.pending);
                    },
                }
            }
        }
        self.next_action()
    }
}

/// The model after the bytes of `chunks`, read from `from` one chunk per read,
/// have each been written out in full, starting from a waiting relay.
pub open spec fn relay_chunks(m: RelayModel, from: Side, chunks: Seq<Seq<u8>>) -> RelayModel
    decreases chunks.len(),
{
    if chunks.len() == 0 {
        m
    } else {
        let c = chunks[0];
        let next = m.after_readable(from, true).after_read(
            ReadOutcome::Bytes(c.len() as usize),
            c,
        ).after_written(true);
        relay_chunks(next, from, chunks.drop_first())
    }
}

/// Chunks that a read can return: none empty, each within a buffer's size.
pub open spec fn readable_chunks(chunks: Seq<Seq<u8>>) -> bool {
    forall|i: int| 0 <= i < chunks.len() ==> 0 < #[trigger] chunks[i].len() <= usize::MAX
}

/// Byte fidelity: whatever the chunking of the reads, the opposite side
/// receives exactly the bytes read, in order, and the other direction is
/// untouched.
pub proof fn lemma_byte_fidelity(m: RelayModel, from: Side, chunks: Seq<Seq<u8>>)
    requires
        m.wf(),
        m.phase == Phase::Waiting,
        readable_chunks(chunks),
    ensures
        relay_chunks(m, from, chunks).wf(),
        relay_chunks(m, from, chunks).phase == Phase::Waiting,
        relay_chunks(m, from, chunks).forwarded_from(from) == m.forwarded_from(from)
            + chunks.flatten(),
        relay_chunks(m, from, chunks).read_from(from) == relay_chunks(m, from, chunks).forwarded_from(from),
        relay_chunks(m, from, chunks).read_from(from.opposite()) == m.read_from(from.opposite()),
        relay_chunks(m, from, chunks).forwarded_from(from.opposite()) == m.forwarded_from(from.opposite()),
    decreases chunks.len(),
{
    if chunks.len() > 0 {
        let c = chunks[0];
        assert(0 < chunks[0].len() <= usize::MAX);
        let next = m.after_readable(from, true).after_read(
            ReadOutcome::Bytes(c.len() as usize),
            c,
        ).after_written(true);
        assert(c.take(c.len() as int) == c);
        assert(next.forwarded_from(from) == m.forwarded_from(from) + c);
        assert(next.read_from(from) == m.read_from(from) + c);
        assert(next.wf()) by {
            match from {
                Side::Left => {
                    assert(next.read_left == next.sent_right + Seq::<u8>::empty());
                },
                Side::Right => {
                    assert(next.read_right == next.sent_left + Seq::<u8>::empty());
                },
            }
        }
        let rest = chunks.drop_first();
        assert forall|i: int| 0 <= i < rest.len() implies 0 < #[trigger] rest[i].len() <= usize::MAX by {
            assert(rest[i] == chunks[i + 1]);
        }
        lemma_byte_fidelity(next, from, rest);
        assert(m.forwarded_from(from) + c + rest.flatten() == m.forwarded_from(from) + (c
            + rest.flatten()));
    } else {
        assert(m.forwarded_from(from) + chunks.flatten() == m.forwarded_from(from));
        match from {
            Side::Left => {
                assert(m.read_left == m.sent_right + Seq::<u8>::empty());
            },
            Side::Right => {
                assert(m.read_right == m.sent_left + Seq::<u8>::empty());
            },
        }
    }
}

/// Two chunkings of the same bytes leave a relay in the same state: how the
/// bytes were split across reads is not observable.
pub proof fn lemma_chunking_unobservable(
    m: RelayModel,
    from: Side,
    a: Seq<Seq<u8>>,
    b: Seq<Seq<u8>>,
)
    requires
        m.wf(),
        m.phase == Phase::Waiting,
        m.pending.len() == 0,
        readable_chunks(a),
        readable_chunks(b),
        a.flatten() == b.flatten(),
    ensures
        relay_chunks(m, from, a) == relay_chunks(m, from, b),
{
    lemma_byte_fidelity(m, from, a);
    lemma_byte_fidelity(m, from, b);
    lemma_relay_chunks_pending(m, from, a);
    lemma_relay_chunks_pending(m, from, b);
    let ra = relay_chunks(m, from, a);
    let rb = relay_chunks(m, from, b);
    assert(ra.pending == rb.pending);
    match from {
        Side::Left => {
            assert(ra.read_left == rb.read_left);
            assert(ra.sent_right == rb.sent_right);
        },
        Side::Right => {
            assert(ra.read_right == rb.read_right);
            assert(ra.sent_left == rb.sent_left);
        },
    }
}

proof fn lemma_relay_chunks_pending(m: RelayModel, from: Side, chunks: Seq<Seq<u8>>)
    requires
        m.pending.len() == 0,
    ensures
        relay_chunks(m, from, chunks).pending.len() == 0,
    decreases chunks.len(),
{
    if chunks.len() > 0 {
        let c = chunks[0];
        let next = m.after_readable(from, true).after_read(
            ReadOutcome::Bytes(c.len() as usize),
            c,
        ).after_written(true);
        lemma_relay_chunks_pending(next, from, chunks.drop_first());
    }
}

/// A stale readiness hint changes nothing: a `WouldBlock` read right after a
/// readiness signal returns the relay to the very state it waited in, with
/// no byte moved and no end of the relay.
pub proof fn lemma_stale_readiness(m: RelayModel, side: Side, buf: Seq<u8>)
    requires
        m.wf(),
        m.phase == Phase::Waiting,
    ensures
        m.after_readable(side, true).after_read(ReadOutcome::WouldBlock, buf) == m,
        m.after_readable(side, true).after_read(ReadOutcome::WouldBlock, buf).action()
            == Action::WaitReadable,
{
}

/// A disconnect on either side ends the relay at once: the next action
/// releases both endpoints, and no byte of the closed side is forwarded.
pub proof fn lemma_disconnect_stops(m: RelayModel, side: Side, buf: Seq<u8>)
    requires
        m.wf(),
        m.phase == Phase::Waiting,
    ensures
        m.after_readable(side, true).after_read(ReadOutcome::Bytes(0), buf).action()
            == Action::Stop(Termination::Disconnected(side)),
        m.after_readable(side, true).after_read(ReadOutcome::Bytes(0), buf).read_from(side)
            == m.read_from(side),
        m.after_readable(side, true).after_read(ReadOutcome::Bytes(0), buf).wf(),
{
}

} // verus!
