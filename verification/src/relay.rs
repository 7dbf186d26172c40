//! One direction of a relay: ordered, unmodified byte forwarding.
//!
//! Every session copies bytes in two independent directions (PTY to stream and
//! stream to PTY; on the client, local input to stream and stream to local
//! output).  The driver reads from the source and feeds each outcome to a
//! `Direction`, which classifies it and says what to write where.  A read of
//! zero bytes is a graceful end of data, never an error; within one direction
//! the forwarded bytes are exactly the bytes read, in arrival order.

use vstd::prelude::*;

verus! {

/// Lifecycle of one direction of a relay.
#[derive(Clone, Copy, Debug, PartialEq, Eq, Structural)]
pub enum DirStatus {
    /// Still copying.
    Open,
    /// Its source signalled end of data; the direction ended gracefully.
    Done,
    /// A read or write failed; fatal for this session only.
    Failed,
}

/// The outcome of one read from a direction's source.
#[derive(Clone, Debug, PartialEq, Eq)]
pub enum ReadEvent {
    /// The read delivered these bytes.
    Data(Vec<u8>),
    /// The read returned zero bytes: end of data.
    Eof,
    /// The read failed.
    Fault,
}

/// What the driver must do with one read outcome.
#[derive(Clone, Debug, PartialEq, Eq)]
pub enum DirAction {
    /// Write exactly these bytes to the destination, in order.
    Forward(Vec<u8>),
    /// Stop this direction; its data ended gracefully.
    Conclude,
    /// Stop this direction and report a relay I/O failure.
    Fail,
}

/// A read outcome at the specification level.
pub enum ReadOutcome {
    /// The read delivered this byte sequence.
    Bytes(Seq<u8>),
    /// End of data.
    End,
    /// The read failed.
    Failure,
}

impl ReadEvent {
    /// The outcome this event stands for.
    pub open spec fn model(&self) -> ReadOutcome {
        match self {
            ReadEvent::Data(b) => ReadOutcome::Bytes(b@),
            ReadEvent::Eof => ReadOutcome::End,
            ReadEvent::Fault => ReadOutcome::Failure,
        }
    }
}

/// One direction's state at the specification level.
pub struct DirModel {
    /// Lifecycle state.
    pub status: DirStatus,
    /// Every byte forwarded so far, in arrival order.
    pub forwarded: Seq<u8>,
}

/// A direction before anything was read.
pub open spec fn dir_init() -> DirModel {
    DirModel { status: DirStatus::Open, forwarded: Seq::empty() }
}

/// What one read outcome does to an open direction: payload is appended to the
/// forwarded bytes, end of data concludes it gracefully, a failed read fails
/// it; a direction that already ended ignores further outcomes.
pub open spec fn dir_step(m: DirModel, ev: ReadOutcome) -> DirModel {
    if m.status != DirStatus::Open {
        m
    } else {
        match ev {
            ReadOutcome::Bytes(b) => DirModel { status: DirStatus::Open, forwarded: m.forwarded + b },
            ReadOutcome::End => DirModel { status: DirStatus::Done, forwarded: m.forwarded },
            ReadOutcome::Failure => DirModel { status: DirStatus::Failed, forwarded: m.forwarded },
        }
    }
}

/// The direction after a whole sequence of read outcomes.
pub open spec fn dir_run(m: DirModel, evs: Seq<ReadOutcome>) -> DirModel
    decreases evs.len(),
{
    if evs.len() == 0 {
        m
    } else {
        dir_run(dir_step(m, evs[0]), evs.drop_first())
    }
}

/// The concatenation of a sequence of byte chunks, in order.
pub open spec fn concat_all(chunks: Seq<Seq<u8>>) -> Seq<u8>
    decreases chunks.len(),
{
    if chunks.len() == 0 {
        Seq::empty()
    } else {
        chunks[0] + concat_all(chunks.drop_first())
    }
}

/// One direction of a relay.  The ghost `forwarded` sequence records every
/// byte this direction has handed to its destination.
pub struct Direction {
    /// Lifecycle state.
    pub status: DirStatus,
    /// Every byte forwarded so far, in arrival order.
    pub forwarded: Ghost<Seq<u8>>,
}

impl Direction {
    /// The model this direction stands for.
    pub open spec fn model(&self) -> DirModel {
        DirModel { status: self.status, forwarded: self.forwarded@ }
    }

    /// A fresh, open direction with nothing forwarded yet.
    pub fn new() -> (d: Direction)
        ensures
            d.model() == dir_init(),
    {
        Direction { status: DirStatus::Open, forwarded: Ghost(Seq::empty()) }
    }

    /// Feeds one read outcome to this direction and returns what to do with
    /// it: payload is forwarded unmodified, end of data concludes the
    /// direction gracefully, and a failed read fails it.
    pub fn on_read(&mut self, ev: ReadEvent) -> (a: DirAction)
        requires
            old(self).status == DirStatus::Open,
        ensures
            final(self).model() == dir_step(old(self).model(), ev.model()),
            ev matches ReadEvent::Data(b) ==> (a matches DirAction::Forward(out) && out == b),
            ev matches ReadEvent::Eof ==> a == DirAction::Conclude,
            ev matches ReadEvent::Fault ==> a == DirAction::Fail,
    {
        match ev {
            ReadEvent::Data(b) => {
                self.forwarded = Ghost(self.forwarded@ + b@);
                DirAction::Forward(b)
            },
            ReadEvent::Eof => {
                self.status = DirStatus::Done;
                DirAction::Conclude
            },
            ReadEvent::Fault => {
                self.status = DirStatus::Failed;
                DirAction::Fail
            },
        }
    }
}

/// Classifies one raw read result: a failed read is a fault; a successful read
/// of zero bytes is a graceful end of data, never an error; anything else is
/// payload to forward.
pub fn classify_read(ok: bool, data: Vec<u8>) -> (ev: ReadEvent)
    ensures
        !ok ==> ev == ReadEvent::Fault,
        ok && data@.len() == 0 ==> ev == ReadEvent::Eof,
        ok && data@.len() > 0 ==> (ev matches ReadEvent::Data(d) && d == data),
{
    if !ok {
        ReadEvent::Fault
    } else if data.len() == 0 {
        ReadEvent::Eof
    } else {
        ReadEvent::Data(data)
    }
}

/// How a finished bidirectional copy ended: it is graceful exactly when
/// neither direction failed.
#[derive(Clone, Copy, Debug, PartialEq, Eq, Structural)]
pub enum RelayEnd {
    /// Both directions ended by end of data.
    Eof,
    /// At least one direction failed on a read or write.
    Fault,
}

/// Combines the final statuses of a session's two directions into how its
/// relay ended: any failed direction makes the relay faulty, and ends by zero
/// byte reads alone are graceful.
pub fn relay_end_reason(a: DirStatus, b: DirStatus) -> (end: RelayEnd)
    requires
        a != DirStatus::Open,
        b != DirStatus::Open,
    ensures
        end == RelayEnd::Fault <==> (a == DirStatus::Failed || b == DirStatus::Failed),
        end == RelayEnd::Eof <==> (a == DirStatus::Done && b == DirStatus::Done),
{
    match (a, b) {
        (DirStatus::Done, DirStatus::Done) => RelayEnd::Eof,
        _ => RelayEnd::Fault,
    }
}

/// Law (ordered delivery): a direction fed only payloads stays open and has
/// forwarded exactly their concatenation — all bytes, unmodified, in arrival
/// order.  This is the ordering guarantee within one direction of one session;
/// no ordering is claimed across directions or across sessions.
pub proof fn lemma_order_preserved(m: DirModel, chunks: Seq<Seq<u8>>)
    requires
        m.status == DirStatus::Open,
    ensures
        dir_run(m, chunks.map_values(|c: Seq<u8>| ReadOutcome::Bytes(c))).status == DirStatus::Open,
        dir_run(m, chunks.map_values(|c: Seq<u8>| ReadOutcome::Bytes(c))).forwarded
            == m.forwarded + concat_all(chunks),
    decreases chunks.len(),
{
    let evs = chunks.map_values(|c: Seq<u8>| ReadOutcome::Bytes(c));
    if chunks.len() == 0 {
        assert(m.forwarded + concat_all(chunks) =~= m.forwarded);
    } else {
        let stepped = dir_step(m, evs[0]);
        assert(stepped.forwarded == m.forwarded + chunks[0]);
        assert(evs.drop_first() =~= chunks.drop_first().map_values(|c: Seq<u8>| ReadOutcome::Bytes(c)));
        lemma_order_preserved(stepped, chunks.drop_first());
        assert((m.forwarded + chunks[0]) + concat_all(chunks.drop_first())
            =~= m.forwarded + concat_all(chunks));
    }
}

} // verus!
