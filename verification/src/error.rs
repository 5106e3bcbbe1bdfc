//! The one way in which a query fails.

use vstd::prelude::*;

verus! {

/// Why a query gave no dimensions.
///
/// The platform's own reason (no terminal, no permission, no such request, a
/// short read) is not kept: every failure is this one.
#[derive(Clone, Copy, Debug, PartialEq, Eq, Structural)]
pub enum QueryError {
    /// The platform could not report the terminal's dimensions.
    SizeUnavailable,
}

impl QueryError {
    /// The text of the message, whatever the error.
    pub open spec fn message_text() -> Seq<char> {
        "Unable to get the terminal size."@
    }

    /// The message for a user.
    pub fn message(&self) -> (text: String)
        ensures
            text@ == Self::message_text(),
    {
        "Unable to get the terminal size.".to_owned()
    }
}

} // verus!
