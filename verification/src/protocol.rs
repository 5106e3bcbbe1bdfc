//! The steps of a query through the window-size handle.
//!
//! The query opens the handle, reads one record, closes the handle and
//! returns. The caller does each of these and reports how it went; [`Query`]
//! keeps where the query stands and says what comes next. The handle is
//! asked to be closed after every read, however the read went, and nothing is
//! returned while a handle is open.

use vstd::prelude::*;
use crate::error::QueryError;
use crate::handle::{read_outcome, size_from_read, WindowRecord};

verus! {

/// What the caller is to do next.
#[derive(Clone, Copy, Debug, PartialEq, Eq)]
pub enum Request {
    /// Open the window-size handle of standard output.
    Open,
    /// Read one record from `handle`.
    Read { handle: usize },
    /// Close `handle`.
    Close { handle: usize },
    /// Hand `outcome` to whoever asked for the size. The query is over.
    Return { outcome: Result<(u16, u16), QueryError> },
}

/// How the last request went.
#[derive(Clone, Copy, Debug, PartialEq, Eq)]
pub enum Reply {
    /// The handle is open.
    Opened { handle: usize },
    /// The handle could not be opened.
    OpenFailed,
    /// The read returned `count` bytes into `record`.
    ReadDone { count: usize, record: WindowRecord },
    /// The read failed.
    ReadFailed,
    /// The close was made. Whether it succeeded is of no interest.
    Closed,
}

/// Where a query stands.
#[derive(Clone, Copy, Debug, PartialEq, Eq)]
pub enum Query {
    /// The handle has been asked for.
    Opening,
    /// `handle` is open and a record has been asked of it.
    Reading { handle: usize },
    /// The read is over and came to `outcome`; `handle` has been asked to
    /// close.
    Closing { handle: usize, outcome: Result<(u16, u16), QueryError> },
    /// Nothing is open; `outcome` is the query's result.
    Finished { outcome: Result<(u16, u16), QueryError> },
}

impl Reply {
    /// What this reply amounts to as the answer to a read: a complete record
    /// gives its dimensions, anything else the one error.
    pub open spec fn as_read(self) -> Result<(u16, u16), QueryError> {
        match self {
            Reply::ReadDone { count, record } => read_outcome(count as int, record),
            _ => Err(QueryError::SizeUnavailable),
        }
    }
}

impl Query {
    /// The handle that this state holds open, if any.
    pub open spec fn held(self) -> Option<usize> {
        match self {
            Query::Reading { handle } => Some(handle),
            Query::Closing { handle, .. } => Some(handle),
            _ => None,
        }
    }

    /// The state that follows `self` on `reply`, and the request that goes
    /// with it.
    ///
    /// A reply that does not answer the pending request counts as that
    /// request's failure. A finished query stays finished and repeats its
    /// outcome.
    pub open spec fn after(self, reply: Reply) -> (Query, Request) {
        match self {
            Query::Opening => match reply {
                Reply::Opened { handle } => (Query::Reading { handle }, Request::Read { handle }),
                _ => (
                    Query::Finished { outcome: Err(QueryError::SizeUnavailable) },
                    Request::Return { outcome: Err(QueryError::SizeUnavailable) },
                ),
            },
            Query::Reading { handle } => (
                Query::Closing { handle, outcome: reply.as_read() },
                Request::Close { handle },
            ),
            Query::Closing { handle, outcome } => (
                Query::Finished { outcome },
                Request::Return { outcome },
            ),
            Query::Finished { outcome } => (self, Request::Return { outcome }),
        }
    }

    /// A new query, with its first request: to open the handle.
    pub fn start() -> (first: (Query, Request))
        ensures
            first == (Query::Opening, Request::Open),
    {
        (Query::Opening, Request::Open)
    }

    /// Takes the reply to the pending request and gives the next state with
    /// the next request.
    ///
    /// After an open that succeeded comes the read. After the read, however
    /// it went, comes the close of the same handle. After the close, or after
    /// an open that failed, comes the return, with the dimensions only if a
    /// complete record was read.
    pub fn step(self, reply: Reply) -> (next: (Query, Request))
        ensures
            next == self.after(reply),
    {
        match self {
            Query::Opening => match reply {
                Reply::Opened { handle } => (Query::Reading { handle }, Request::Read { handle }),
                _ => (
                    Query::Finished { outcome: Err(QueryError::SizeUnavailable) },
                    Request::Return { outcome: Err(QueryError::SizeUnavailable) },
                ),
            },
            Query::Reading { handle } => {
                let outcome = match reply {
                    Reply::ReadDone { count, record } => size_from_read(count, record),
                    _ => Err(QueryError::SizeUnavailable),
                };
                (Query::Closing { handle, outcome }, Request::Close { handle })
            },
            Query::Closing { handle: _, outcome } => (
                Query::Finished { outcome },
                Request::Return { outcome },
            ),
            Query::Finished { outcome } => (self, Request::Return { outcome }),
        }
    }
}

} // verus!
