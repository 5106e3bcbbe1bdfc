//! The query through a window-size handle, for a platform without the
//! device-control request.
//!
//! Such a platform serves the size as one small record, read from a handle
//! that is opened on standard output and closed again. Opening, reading and
//! closing are the caller's business. Decided here: what a read amounts to,
//! and, step by step, what the caller is to do next.

use vstd::prelude::*;
use crate::error::QueryError;

verus! {

/// The record that the handle serves: two 16-bit fields, rows before columns.
#[derive(Clone, Copy, Debug, PartialEq, Eq, Structural)]
pub struct WindowRecord {
    /// Rows, in characters.
    pub row: u16,
    /// Columns, in characters.
    pub col: u16,
}

/// The record's size in bytes: what a complete read returns.
pub const RECORD_LEN: usize = 4;

/// The number of bytes that make up a `redox_termios::Winsize` holding
/// `record`.
///
/// Trusted, not proved: `Winsize`'s `deref` hands out the value's own bytes
/// as a slice, and this is that slice's length. The value is two 16-bit
/// fields, `ws_row` and `ws_col`, laid out as in C, so the length is four
/// whatever the fields hold.
#[verifier::external_body]
fn winsize_len(record: &WindowRecord) -> (len: usize)
    ensures
        len == RECORD_LEN,
{
    let winsize = redox_termios::Winsize { ws_row: record.row, ws_col: record.col };
    winsize.len()
}

/// What a read that returned `count` bytes into `record` amounts to: the
/// columns, then the rows, if the record came whole; no dimensions at all if
/// it came short or long.
pub open spec fn read_outcome(count: int, record: WindowRecord) -> Result<(u16, u16), QueryError> {
    if count == RECORD_LEN {
        Ok((record.col, record.row))
    } else {
        Err(QueryError::SizeUnavailable)
    }
}

/// The terminal's size as `(columns, rows)` from the byte count of a read and
/// the record read into.
///
/// The pair comes out columns first, the reverse of the record's own order.
/// Any count but the record's full size is the one error.
pub fn size_from_read(count: usize, record: WindowRecord) -> (r: Result<(u16, u16), QueryError>)
    ensures
        r == read_outcome(count as int, record),
{
    if count == winsize_len(&record) {
        Ok((record.col, record.row))
    } else {
        Err(QueryError::SizeUnavailable)
    }
}

} // verus!
