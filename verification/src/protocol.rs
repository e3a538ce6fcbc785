//! How the library and its caller take turns.
//!
//! Each piece of work that needs the outside world is a small machine. It
//! names the action that is due; the caller carries the action out and
//! reports an event; the machine takes note and names the next action, until
//! it is finished. An event that does not answer the action that was due is
//! taken as a failure of that action, with the cause given here.

use vstd::prelude::*;

verus! {

/// The cause recorded when an event does not answer the pending action.
pub open spec fn unexpected_reply() -> Seq<char> {
    "unexpected reply"@
}

/// Writes out `unexpected_reply`.
pub fn unexpected_reply_text() -> (cause: String)
    ensures
        cause@ == unexpected_reply(),
{
    String::from_str("unexpected reply")
}

} // verus!
