//! The services and the decisions of the runtime that drives them: one
//! log-follower iteration under one transaction, and when a loop worker
//! goes on, ends, or stops every other worker.
pub mod auction_house;
pub mod bidding_engine;

use vstd::prelude::*;
use crate::event::Event;
use crate::event_log::{InMemoryLog, Offset};
use crate::persistence::{Backend, Connection, Error, Transaction};
use crate::progress::InMemoryProgressTracker;

verus! {

/// The key under which a service's progress is recorded.
pub type ServiceId = String;

/// The message a worker ends with when its iteration panicked.
pub const PANIC_MESSAGE: &'static str = "service panicked";

/// A service that handles the events of the log, in order.
pub trait LogFollowerService {
    /// What the service needs of its own state between events.
    spec fn inv(&self) -> bool;

    fn get_log_progress_id(&self) -> String;

    /// Handles one event as part of `transaction`; the service may append
    /// to the log, never change what is in it.
    fn handle_event(&mut self, transaction: &Transaction, log: &mut InMemoryLog, event: Event) -> (r:
        Result<(), Error>)
        requires
            old(self).inv(),
        ensures
            final(self).inv(),
            final(log)@.len() >= old(log)@.len(),
            final(log)@.subrange(0, old(log)@.len() as int) == old(log)@,
    ;
}

/// A service that is a loop that does something.
pub trait LoopService {
    fn run_iteration(&mut self) -> Result<(), Error>;
}

/// How the last iteration of a loop worker went.
#[derive(Copy, Clone, Debug, PartialEq, Eq, Structural)]
pub enum IterationOutcome {
    Completed,
    Failed,
    Panicked,
}

/// What a loop worker does next.
#[derive(Copy, Clone, Debug, PartialEq, Eq, Structural)]
pub enum WorkerStep {
    /// Run one more iteration.
    Iterate,
    /// End cleanly.
    Finish,
    /// Set the flag that stops all workers, and end with the iteration's error.
    Abort,
    /// Set the flag that stops all workers, and end with `PANIC_MESSAGE`.
    AbortPanicked,
}

/// The step of a loop worker after `last` (none before the first
/// iteration): a failure or a panic stops everything; otherwise the worker
/// goes on until its own stop flag or the shared one is set.
pub fn next_worker_step(stop: bool, stop_all: bool, last: Option<IterationOutcome>) -> (r: WorkerStep)
    ensures
        last == Some(IterationOutcome::Failed) ==> r == WorkerStep::Abort,
        last == Some(IterationOutcome::Panicked) ==> r == WorkerStep::AbortPanicked,
        last != Some(IterationOutcome::Failed) && last != Some(IterationOutcome::Panicked) ==> r == if stop
            || stop_all {
            WorkerStep::Finish
        } else {
            WorkerStep::Iterate
        },
{
    match last {
        Some(IterationOutcome::Failed) => WorkerStep::Abort,
        Some(IterationOutcome::Panicked) => WorkerStep::AbortPanicked,
        _ => if stop || stop_all {
            WorkerStep::Finish
        } else {
            WorkerStep::Iterate
        },
    }
}

/// The cursor of a service that follows the log: the offset it reads next,
/// and (as proof state) the events it has handled since it resumed.
pub struct LogFollower {
    service_id: ServiceId,
    offset: Offset,
    resumed_at: Ghost<Offset>,
    handled: Ghost<Seq<Event>>,
}

impl LogFollower {
    pub closed spec fn id(&self) -> Seq<char> {
        self.service_id@
    }

    pub closed spec fn spec_offset(&self) -> Offset {
        self.offset
    }

    pub closed spec fn resumed_at(&self) -> Offset {
        self.resumed_at@
    }

    /// The events handled since the follower resumed, in order.
    pub closed spec fn handled(&self) -> Seq<Event> {
        self.handled@
    }

    /// The follower is consistent with the log and the progress store: it
    /// has handled exactly the events from where it resumed up to its
    /// offset, and the offset recorded for it, if any, is its own.
    pub open spec fn agrees(&self, log: Seq<Event>, progress: Map<Seq<char>, Offset>) -> bool {
        &&& self.spec_offset() == self.resumed_at() + self.handled().len()
        &&& self.handled().len() > 0 ==> self.spec_offset() <= log.len()
        &&& forall|i: int|
            0 <= i < self.handled().len() ==> #[trigger] self.handled()[i] == log[self.resumed_at()
                + i]
        &&& progress.contains_key(self.id()) ==> progress[self.id()] == self.spec_offset()
    }

    /// Where a service resumes: at its recorded offset, or at the start of
    /// the log when none is recorded.
    pub fn start(
        conn: &Connection,
        progress: &InMemoryProgressTracker,
        log: &InMemoryLog,
        service_id: &str,
    ) -> (r: Result<LogFollower, Error>)
        requires
            progress.wf(),
        ensures
            r is Ok <==> conn.backend == Backend::InMemory,
            r is Err ==> r == Err::<LogFollower, Error>(Error::WrongType),
            r is Ok ==> {
                let f = r->Ok_0;
                &&& f.id() == service_id@
                &&& f.handled() == Seq::<Event>::empty()
                &&& f.spec_offset() == if progress@.contains_key(service_id@) {
                    progress@[service_id@]
                } else {
                    0
                }
                &&& f.agrees(log@, progress@)
            },
    {
        let recorded = progress.load(conn, service_id)?;
        let offset = match recorded {
            Some(offset) => offset,
            None => log.get_start_offset(),
        };
        Ok(
            LogFollower {
                service_id: service_id.to_owned(),
                offset,
                resumed_at: Ghost(offset),
                handled: Ghost(Seq::empty()),
            },
        )
    }

    /// The offset this follower reads next.
    pub fn offset(&self) -> (r: Offset)
        ensures
            r == self.spec_offset(),
    {
        self.offset
    }

    /// One iteration under `transaction`: reads the event at the cursor,
    /// if there is one yet; has `service` handle it; records the advanced
    /// cursor in the same transaction. With no event it changes nothing
    /// and succeeds, so that the transaction commits empty. A transaction
    /// through which the cursor cannot be recorded is refused before the
    /// service sees the event; with one that can, only the service itself
    /// can fail the iteration. On any error the cursor is not recorded, and
    /// the caller must not commit. On success the follower's own offset has
    /// moved with the recorded one: the caller commits, or, if the commit
    /// fails, stops using this follower.
    pub fn run_iteration<S: LogFollowerService>(
        &mut self,
        service: &mut S,
        transaction: &Transaction,
        log: &mut InMemoryLog,
        progress: &mut InMemoryProgressTracker,
    ) -> (r: Result<(), Error>)
        requires
            old(service).inv(),
            old(progress).wf(),
            old(self).agrees(old(log)@, old(progress)@),
        ensures
            final(service).inv(),
            final(progress).wf(),
            final(log)@.len() >= old(log)@.len(),
            final(log)@.subrange(0, old(log)@.len() as int) == old(log)@,
            final(self).id() == old(self).id(),
            final(self).resumed_at() == old(self).resumed_at(),
            r is Err ==> *final(self) == *old(self) && final(progress)@ == old(progress)@,
            r is Ok ==> final(self).agrees(final(log)@, final(progress)@),
            old(self).spec_offset() > old(log)@.len() ==> {
                &&& r == Err::<(), Error>(Error::OutOfBounds)
                &&& *final(service) == *old(service)
                &&& final(log)@ == old(log)@
            },
            old(self).spec_offset() == old(log)@.len() ==> {
                &&& r is Ok
                &&& *final(self) == *old(self)
                &&& *final(service) == *old(service)
                &&& final(progress)@ == old(progress)@
                &&& final(log)@ == old(log)@
            },
            old(self).spec_offset() < old(log)@.len() && transaction.backend != Backend::InMemory ==> {
                &&& r == Err::<(), Error>(Error::WrongType)
                &&& *final(service) == *old(service)
                &&& final(log)@ == old(log)@
            },
            old(self).spec_offset() < old(log)@.len() && r is Ok ==> {
                &&& final(self).handled() == old(self).handled().push(old(log)@[old(self).spec_offset() as int])
                &&& final(self).spec_offset() == old(self).spec_offset() + 1
                &&& final(progress)@ == old(progress)@.insert(old(self).id(), final(self).spec_offset())
            },
    {
        let batch = log.read(self.offset, 1)?;
        let new_offset = batch.offset;
        let mut events = batch.data;
        if events.len() == 0 {
            return Ok(());
        }
        transaction.cast(Backend::InMemory)?;
        let event = events.remove(0).details;
        let ghost before = log@;
        service.handle_event(transaction, log, event)?;
        progress.store_tr(transaction, self.service_id.as_str(), new_offset)?;
        self.offset = new_offset;
        self.handled = Ghost(self.handled@.push(event));
        assert forall|i: int| 0 <= i < self.handled@.len() implies #[trigger] self.handled@[i]
            == log@[self.resumed_at@ + i] by {
            assert(log@.subrange(0, before.len() as int)[self.resumed_at@ + i] == log@[self.resumed_at@ + i]);
        }
        Ok(())
    }
}

/// Every event from where a follower resumed up to the offset recorded for
/// it has been handled by it, in log order.
pub proof fn lemma_recorded_offset_covers_handled(
    follower: LogFollower,
    log: Seq<Event>,
    progress: Map<Seq<char>, Offset>,
    o: int,
)
    requires
        follower.agrees(log, progress),
        progress.contains_key(follower.id()),
        follower.resumed_at() <= o < progress[follower.id()],
    ensures
        o < log.len(),
        follower.handled()[o - follower.resumed_at()] == log[o],
{
    assert(follower.handled()[o - follower.resumed_at()] == log[follower.resumed_at() + (o - follower.resumed_at())]);
}

} // verus!
