//! Connections and transactions as the stores see them: values that say
//! which backend they belong to, so that a store refuses one of another.
use vstd::prelude::*;

verus! {

/// The kinds of persistence a connection can come from.
#[derive(Copy, Clone, Debug, PartialEq, Eq, Structural)]
pub enum Backend {
    InMemory,
    Postgres,
}

/// Errors of the persistence layer and of the components built on it.
#[derive(Clone, Debug, PartialEq, Eq)]
pub enum Error {
    /// A store was handed a connection or transaction of another backend.
    WrongType,
    /// The in-memory backend cannot undo writes.
    RollbackNotSupported,
    /// A read asked for a position past the end of the log.
    OutOfBounds,
    /// A service reported a failure, with its message.
    Service(String),
}

/// A connection to some persistence.
#[derive(Copy, Clone, Debug)]
pub struct Connection {
    pub backend: Backend,
}

/// A transaction begun on a connection; what a store writes through it
/// becomes visible when it commits.
#[derive(Copy, Clone, Debug)]
pub struct Transaction {
    pub backend: Backend,
}

/// `Ok` when `actual` is the backend a store was built for, else `WrongType`.
pub fn expect_backend(actual: Backend, expected: Backend) -> (r: Result<(), Error>)
    ensures
        r is Ok <==> actual == expected,
        r is Err ==> r == Err::<(), Error>(Error::WrongType),
{
    if actual == expected {
        Ok(())
    } else {
        Err(Error::WrongType)
    }
}

impl Connection {
    pub fn new(backend: Backend) -> (r: Connection)
        ensures
            r.backend == backend,
    {
        Connection { backend }
    }

    pub fn start_transaction(&mut self) -> (r: Transaction)
        ensures
            r.backend == old(self).backend,
            *final(self) == *old(self),
    {
        Transaction { backend: self.backend }
    }

    /// `Ok` when this connection belongs to `backend`, else `WrongType`.
    pub fn cast(&self, backend: Backend) -> (r: Result<(), Error>)
        ensures
            r is Ok <==> self.backend == backend,
            r is Err ==> r == Err::<(), Error>(Error::WrongType),
    {
        expect_backend(self.backend, backend)
    }
}

impl Transaction {
    /// `Ok` when this transaction belongs to `backend`, else `WrongType`.
    pub fn cast(&self, backend: Backend) -> (r: Result<(), Error>)
        ensures
            r is Ok <==> self.backend == backend,
            r is Err ==> r == Err::<(), Error>(Error::WrongType),
    {
        expect_backend(self.backend, backend)
    }

    /// Whether this transaction's backend can discard its writes: the
    /// in-memory one cannot, and says so rather than pretend.
    pub fn rollback_support(&self) -> (r: Result<(), Error>)
        ensures
            r is Ok <==> self.backend != Backend::InMemory,
            r is Err ==> r == Err::<(), Error>(Error::RollbackNotSupported),
    {
        match self.backend {
            Backend::InMemory => Err(Error::RollbackNotSupported),
            Backend::Postgres => Ok(()),
        }
    }
}

} // verus!
