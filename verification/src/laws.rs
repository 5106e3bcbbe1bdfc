//! What holds of every query, proved from the definitions that the
//! functions' contracts are stated in.

use vstd::prelude::*;
use crate::device::{device_outcome, TermSize};
use crate::error::QueryError;
use crate::handle::{read_outcome, WindowRecord, RECORD_LEN};
use crate::protocol::{Query, Reply, Request};

verus! {

/// On both paths a size comes out as columns, then rows, though the
/// platform's record holds the rows first.
pub proof fn lemma_columns_first(status: int, size: TermSize, count: int, record: WindowRecord)
    ensures
        device_outcome(status, size) matches Ok(pair) ==> pair.0 == size.col && pair.1 == size.row,
        read_outcome(count, record) matches Ok(pair) ==> pair.0 == record.col && pair.1 == record.row,
{
}

/// Two answers of the device that agree on whether the request succeeded and
/// on the columns and rows give the same result: the pixel fields and the
/// value of a failing status make no difference.
pub proof fn lemma_same_answer_same_size(
    status_a: int,
    size_a: TermSize,
    status_b: int,
    size_b: TermSize,
)
    requires
        (status_a == 0) == (status_b == 0),
        size_a.col == size_b.col,
        size_a.row == size_b.row,
    ensures
        device_outcome(status_a, size_a) == device_outcome(status_b, size_b),
{
}

/// Two reads that agree on whether the record came whole and on the record
/// give the same result: how far a read fell short makes no difference.
pub proof fn lemma_same_read_same_size(
    count_a: int,
    record_a: WindowRecord,
    count_b: int,
    record_b: WindowRecord,
)
    requires
        (count_a == RECORD_LEN) == (count_b == RECORD_LEN),
        record_a == record_b,
    ensures
        read_outcome(count_a, record_a) == read_outcome(count_b, record_b),
{
}

/// Whatever the reply to a read, a short or failed read too, the next request
/// is to close the handle that was read from, and the query keeps that handle
/// until then.
pub proof fn lemma_read_then_close(handle: usize, reply: Reply)
    ensures
        (Query::Reading { handle }).after(reply).1 == (Request::Close { handle }),
        (Query::Reading { handle }).after(reply).0.held() == Some(handle),
{
}

/// No step lets a handle go unclosed.
///
/// With the request to return a result the query holds no handle, and that
/// request never answers a read; a handle that a state held is absent from
/// the next state only if its close had been requested; and the state that
/// waits for a close is entered with the request to close its handle.
pub proof fn lemma_no_handle_left_open(query: Query, reply: Reply)
    ensures
        query.after(reply).1 is Return ==> query.after(reply).0.held() is None && !(query is Reading),
        query.held() is Some && query.after(reply).0.held() is None ==> query is Closing,
        query.after(reply).0 matches Query::Closing { handle, .. } ==> query.after(reply).1 == (
            Request::Close { handle }
        ),
{
}

/// A whole query, from its start to its return.
///
/// If the handle opens, the requests that follow are the read, the close of
/// that same handle, and the return of what the read amounted to. If it does
/// not open, the error is returned at once, with nothing to close.
pub proof fn lemma_whole_query(opened: Reply, read: Reply, closed: Reply)
    ensures
        ({
            let first = Query::Opening.after(opened);
            let second = first.0.after(read);
            let third = second.0.after(closed);
            match opened {
                Reply::Opened { handle } => {
                    &&& first == (Query::Reading { handle }, Request::Read { handle })
                    &&& second.1 == (Request::Close { handle })
                    &&& third == (
                        Query::Finished { outcome: read.as_read() },
                        Request::Return { outcome: read.as_read() },
                    )
                },
                _ => first == (
                    Query::Finished { outcome: Err(QueryError::SizeUnavailable) },
                    Request::Return { outcome: Err(QueryError::SizeUnavailable) },
                ),
            }
        }),
{
}

} // verus!
