//! Plain state of the small indicator widgets; their drawing lives with
//! the host application.

use vstd::prelude::*;

verus! {

/// The connection dot next to the bind form: green when bound, red when
/// not.
#[derive(Debug, Clone, Copy, PartialEq, Eq, Structural)]
pub struct BindIndicator(pub bool);

impl BindIndicator {
    pub fn new(connected: bool) -> (r: Self)
        ensures
            r == BindIndicator(connected),
    {
        Self(connected)
    }

    /// Whether the indicator shows a live session.
    pub fn connected(&self) -> (r: bool)
        ensures
            r == self.0,
    {
        self.0
    }
}

} // verus!
