//! Relative urgency of a download request, consumed by the scheduling layer
//! of a concrete client implementation.

use vstd::prelude::*;

verus! {

/// How urgent a request is. The contract's convenience methods default to
/// `Normal`; a concrete client may serve `High` requests first.
#[derive(Clone, Copy, Debug, PartialEq, Eq, Structural)]
pub enum Priority {
    /// Default priority.
    Normal,
    /// Requests with high priority are expected to be served first.
    High,
}

impl Priority {
    /// Returns `true` if the priority is `Normal`.
    pub fn is_normal(&self) -> (r: bool)
        ensures
            r == (*self is Normal),
    {
        matches!(self, Priority::Normal)
    }

    /// Returns `true` if the priority is `High`.
    pub fn is_high(&self) -> (r: bool)
        ensures
            r == (*self is High),
    {
        matches!(self, Priority::High)
    }
}

impl Default for Priority {
    /// The default priority is `Normal`.
    fn default() -> (r: Self)
        ensures
            r is Normal,
    {
        Priority::Normal
    }
}

} // verus!
