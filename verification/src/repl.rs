//! Events of an interactive session.
//!
//! While execution is suspended at a breakpoint, an external
//! line-oriented command source drives the run by handing the engine a
//! sequence of these events; see
//! [`ExecutionContext::session_event`](crate::interpreter::ExecutionContext::session_event)
//! and
//! [`ExecutionContext::feed_line`](crate::interpreter::ExecutionContext::feed_line).

use vstd::prelude::*;

use crate::token::Token;

verus! {

/// One event of an interactive session.
pub enum ReplResult<T> {
    /// An instruction to dispatch against the live execution state.
    Command(Token),
    /// End the whole run.
    Quit,
    /// The command source failed; the run ends with an internal error
    /// carrying this description.
    Error(T),
}

} // verus!
