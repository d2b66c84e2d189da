//! The append-only event log: its in-memory sequence, the batches read
//! from it, and when a reader has to wait for more.
use vstd::prelude::*;
use crate::event::Event;
use crate::persistence::{Backend, Error, Transaction};

verus! {

/// A position in the log.
pub type Offset = u64;

/// An event together with the position it stands at.
#[derive(Clone, Debug, PartialEq, Eq)]
pub struct LogEvent {
    pub offset: Offset,
    pub details: Event,
}

/// Data read from the log, with the offset to read from next.
#[derive(Clone, Debug, PartialEq, Eq)]
pub struct WithOffset<T> {
    pub offset: Offset,
    pub data: T,
}

/// What a reader does when it finds the log as it is.
#[derive(Copy, Clone, Debug, PartialEq, Eq, Structural)]
pub enum ReadWait {
    /// Read now, whatever is there.
    Now,
    /// Wait for a write, at most this many milliseconds, then read.
    AtMost(u64),
    /// Wait for a write, however long it takes, then read.
    UntilWrite,
}

/// The events of the log at `offset` and after, at most `limit` of them,
/// each with its position.
pub open spec fn is_batch(log: Seq<Event>, offset: int, limit: int, batch: Seq<LogEvent>) -> bool {
    &&& batch.len() == if limit < log.len() - offset {
        limit
    } else {
        log.len() - offset
    }
    &&& forall|i: int|
        0 <= i < batch.len() ==> (#[trigger] batch[i]).offset == offset + i && batch[i].details
            == log[offset + i]
}

/// How a read at `offset` of a log of `len` events proceeds: it waits only
/// when no event stands at `offset` yet, and never for a zero timeout.
pub open spec fn planned_wait(len: int, offset: int, timeout_ms: Option<u64>) -> ReadWait {
    if offset != len {
        ReadWait::Now
    } else {
        match timeout_ms {
            None => ReadWait::UntilWrite,
            Some(ms) => if ms == 0 {
                ReadWait::Now
            } else {
                ReadWait::AtMost(ms)
            },
        }
    }
}

/// The in-memory backend of the log: an ordered sequence whose offsets are
/// its indices.
pub struct InMemoryLog {
    events: Vec<Event>,
}

impl InMemoryLog {
    /// The events in the log, in order.
    pub closed spec fn view(&self) -> Seq<Event> {
        self.events@
    }

    pub fn new() -> (r: InMemoryLog)
        ensures
            r@ == Seq::<Event>::empty(),
    {
        InMemoryLog { events: Vec::new() }
    }

    /// The earliest offset that can be read.
    pub fn get_start_offset(&self) -> (r: Offset)
        ensures
            r == 0,
    {
        0
    }

    /// The offset just past the last event.
    pub fn tail(&self) -> (r: Offset)
        ensures
            r == self@.len(),
    {
        self.events.len() as u64
    }

    /// How a read at `offset` with the given timeout proceeds: it waits only
    /// when no event stands at `offset` yet, and never for a zero timeout.
    pub fn wait_plan(&self, offset: Offset, timeout_ms: Option<u64>) -> (r: ReadWait)
        ensures
            r == planned_wait(self@.len() as int, offset as int, timeout_ms),
    {
        if offset != self.events.len() as u64 {
            ReadWait::Now
        } else {
            match timeout_ms {
                None => ReadWait::UntilWrite,
                Some(ms) => if ms == 0 {
                    ReadWait::Now
                } else {
                    ReadWait::AtMost(ms)
                },
            }
        }
    }

    /// Reads up to `limit` events from `offset` on, as they are now.
    pub fn read(&self, offset: Offset, limit: usize) -> (r: Result<
        WithOffset<Vec<LogEvent>>,
        Error,
    >)
        ensures
            offset > self@.len() <==> r is Err,
            r is Err ==> r == Err::<WithOffset<Vec<LogEvent>>, Error>(Error::OutOfBounds),
            r is Ok ==> {
                let w = r->Ok_0;
                &&& is_batch(self@, offset as int, limit as int, w.data@)
                &&& w.offset == offset + w.data@.len()
            },
    {
        let len = self.events.len();
        if offset > len as u64 {
            return Err(Error::OutOfBounds);
        }
        let start = offset as usize;
        let count: usize = if limit < len - start {
            limit
        } else {
            len - start
        };
        let mut data: Vec<LogEvent> = Vec::new();
        let mut i: usize = 0;
        while i < count
            invariant
                start + count <= len,
                len == self@.len(),
                start == offset,
                i <= count,
                data@.len() == i,
                forall|j: int|
                    0 <= j < i ==> (#[trigger] data@[j]).offset == offset + j && data@[j].details
                        == self@[offset + j],
            decreases count - i,
        {
            data.push(
                LogEvent { offset: offset + i as u64, details: self.events[start + i].duplicate() },
            );
            i = i + 1;
        }
        Ok(WithOffset { offset: offset + count as u64, data })
    }

    /// Reads the event at `offset`, if there is one yet.
    pub fn read_one(&self, offset: Offset) -> (r: Result<WithOffset<Option<LogEvent>>, Error>)
        ensures
            offset > self@.len() <==> r is Err,
            r is Err ==> r == Err::<WithOffset<Option<LogEvent>>, Error>(Error::OutOfBounds),
            r is Ok ==> {
                let w = r->Ok_0;
                if offset < self@.len() {
                    &&& w.data is Some
                    &&& w.data->Some_0.offset == offset
                    &&& w.data->Some_0.details == self@[offset as int]
                    &&& w.offset == offset + 1
                } else {
                    w.data is None && w.offset == offset
                }
            },
    {
        let w = self.read(offset, 1)?;
        let mut data = w.data;
        let first = if data.len() > 0 {
            Some(data.remove(0))
        } else {
            None
        };
        Ok(WithOffset { offset: w.offset, data: first })
    }

    /// Appends `events` in one step and returns the offset just past them.
    /// Only a transaction of the in-memory backend may write here.
    pub fn write_tr(&mut self, transaction: &Transaction, events: &[Event]) -> (r: Result<
        Offset,
        Error,
    >)
        ensures
            r is Ok <==> transaction.backend == Backend::InMemory,
            r is Err ==> r == Err::<Offset, Error>(Error::WrongType) && final(self)@ == old(self)@,
            r is Ok ==> final(self)@ == old(self)@ + events@ && r->Ok_0 == final(self)@.len(),
    {
        transaction.cast(Backend::InMemory)?;
        let mut i: usize = 0;
        while i < events.len()
            invariant
                i <= events@.len(),
                self@ == old(self)@ + events@.subrange(0, i as int),
            decreases events@.len() - i,
        {
            self.events.push(events[i].duplicate());
            assert(events@.subrange(0, i + 1) == events@.subrange(0, i as int).push(events@[i as int]));
            i = i + 1;
        }
        assert(events@.subrange(0, events@.len() as int) == events@);
        Ok(self.events.len() as u64)
    }
}

/// A batch holds its events in strictly increasing offset order.
pub proof fn lemma_batch_offsets_increase(
    log: Seq<Event>,
    offset: int,
    limit: int,
    batch: Seq<LogEvent>,
    i: int,
    j: int,
)
    requires
        is_batch(log, offset, limit, batch),
        0 <= i < j < batch.len(),
    ensures
        batch[i].offset < batch[j].offset,
{
}

/// A read with a zero timeout never waits.
pub proof fn lemma_zero_timeout_never_waits(len: int, offset: int)
    ensures
        planned_wait(len, offset, Some(0)) == ReadWait::Now,
{
}

/// A read without a timeout waits exactly when the log holds no event at
/// `offset` or after (a read past the end fails instead).
pub proof fn lemma_unbounded_read_waits_iff_no_event(log: Seq<Event>, offset: int)
    requires
        0 <= offset <= log.len(),
    ensures
        planned_wait(log.len() as int, offset, None) == ReadWait::UntilWrite <==> !(offset
            < log.len()),
{
}

/// Each event appended to the log is read back, from the start of the log,
/// at the offset just past the events before it.
pub proof fn lemma_written_events_are_read_back(
    log: Seq<Event>,
    events: Seq<Event>,
    limit: int,
    batch: Seq<LogEvent>,
    k: int,
)
    requires
        is_batch(log + events, 0, limit, batch),
        limit >= log.len() + events.len(),
        0 <= k < events.len(),
    ensures
        batch[log.len() + k].offset == log.len() + k,
        batch[log.len() + k].details == events[k],
{
    assert(batch[log.len() + k].details == (log + events)[log.len() + k]);
}

} // verus!
