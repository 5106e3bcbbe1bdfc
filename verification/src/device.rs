//! The query by a device-control request on standard output.
//!
//! The caller issues the request and hands over its status with the record
//! that the terminal driver filled; what they amount to is decided here.

use vstd::prelude::*;
use crate::error::QueryError;

verus! {

/// The window-size record of the terminal driver, field for field and in the
/// driver's order: rows before columns, then the window's size in pixels.
#[derive(Clone, Copy, Debug, PartialEq, Eq, Structural)]
pub struct TermSize {
    /// Rows, in characters.
    pub row: u16,
    /// Columns, in characters.
    pub col: u16,
    /// Width in pixels. Never handed out.
    pub x: u16,
    /// Height in pixels. Never handed out.
    pub y: u16,
}

/// What a request that returned `status` and filled `size` amounts to: status
/// zero is success and gives the columns, then the rows; any other status
/// gives no dimensions at all.
pub open spec fn device_outcome(status: int, size: TermSize) -> Result<(u16, u16), QueryError> {
    if status == 0 {
        Ok((size.col, size.row))
    } else {
        Err(QueryError::SizeUnavailable)
    }
}

/// The terminal's size as `(columns, rows)` from the status of the
/// device-control request and the record it filled.
///
/// The pair comes out columns first, the reverse of the record's own order.
/// A status other than zero is the one error, whatever the record holds.
pub fn size_from_status(status: i32, size: TermSize) -> (r: Result<(u16, u16), QueryError>)
    ensures
        r == device_outcome(status as int, size),
{
    if status == 0 {
        Ok((size.col, size.row))
    } else {
        Err(QueryError::SizeUnavailable)
    }
}

} // verus!
