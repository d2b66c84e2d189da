//! Per-service cursors into the log: "every event before this offset has
//! been processed by that service".
use vstd::prelude::*;
use crate::event_log::Offset;
use crate::keyed_store::KeyedStore;
use crate::persistence::{Backend, Connection, Error, Transaction};

verus! {

/// Cursors of the in-memory backend, keyed by service id.
pub struct InMemoryProgressTracker {
    store: KeyedStore<Offset>,
}

impl InMemoryProgressTracker {
    /// The recorded offset of each service.
    pub closed spec fn view(&self) -> Map<Seq<char>, Offset> {
        self.store@
    }

    pub closed spec fn wf(&self) -> bool {
        self.store.wf()
    }

    pub fn new() -> (r: InMemoryProgressTracker)
        ensures
            r.wf(),
            r@ == Map::<Seq<char>, Offset>::empty(),
    {
        InMemoryProgressTracker { store: KeyedStore::new() }
    }

    /// The recorded offset of service `id`, read outside a transaction.
    pub fn load(&self, conn: &Connection, id: &str) -> (r: Result<Option<Offset>, Error>)
        requires
            self.wf(),
        ensures
            r is Ok <==> conn.backend == Backend::InMemory,
            r is Err ==> r == Err::<Option<Offset>, Error>(Error::WrongType),
            r is Ok ==> r->Ok_0 == if self@.contains_key(id@) {
                Some(self@[id@])
            } else {
                None
            },
    {
        conn.cast(Backend::InMemory)?;
        Ok(self.store.get(id))
    }

    /// The recorded offset of service `id`, read within a transaction.
    pub fn load_tr(&self, transaction: &Transaction, id: &str) -> (r: Result<Option<Offset>, Error>)
        requires
            self.wf(),
        ensures
            r is Ok <==> transaction.backend == Backend::InMemory,
            r is Err ==> r == Err::<Option<Offset>, Error>(Error::WrongType),
            r is Ok ==> r->Ok_0 == if self@.contains_key(id@) {
                Some(self@[id@])
            } else {
                None
            },
    {
        transaction.cast(Backend::InMemory)?;
        Ok(self.store.get(id))
    }

    /// Records `offset` for service `id` as part of `transaction`.
    pub fn store_tr(&mut self, transaction: &Transaction, id: &str, offset: Offset) -> (r: Result<
        (),
        Error,
    >)
        requires
            old(self).wf(),
        ensures
            final(self).wf(),
            r is Ok <==> transaction.backend == Backend::InMemory,
            r is Err ==> r == Err::<(), Error>(Error::WrongType) && final(self)@ == old(self)@,
            r is Ok ==> final(self)@ == old(self)@.insert(id@, offset),
    {
        transaction.cast(Backend::InMemory)?;
        self.store.insert(id, offset);
        Ok(())
    }
}

} // verus!
