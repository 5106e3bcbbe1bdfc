//! The size of a terminal, in columns and rows, from what the operating
//! system answers to a query on standard output.
//!
//! The system calls themselves are the caller's business. This library holds
//! what is decided about their answers: which answer counts as a size, in
//! which order the two dimensions are handed out, and, where the size is read
//! through a handle, that the handle is closed before the query returns.

pub mod device;
pub mod error;
pub mod handle;
pub mod laws;
pub mod protocol;
