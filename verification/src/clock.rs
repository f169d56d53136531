//! Moments of a session.

use vstd::prelude::*;

verus! {

/// Nanoseconds in a second.
pub const SECOND: u64 = 1_000_000_000;

/// The latest moment that anything may happen at, in nanoseconds: some three hundred years.
pub const LAST_MOMENT: u64 = 9_000_000_000_000_000_000;

/// A moment of a session.
#[derive(Debug)]
pub struct Moment {
    /// Nanoseconds since the session began.
    pub nanos: u64,
    /// The same in seconds, to three places, as it is shown.
    pub seconds: String,
}

/// A moment with its text by characters.
pub struct MomentView {
    pub nanos: u64,
    pub seconds: Seq<char>,
}

impl View for Moment {
    type V = MomentView;

    open spec fn view(&self) -> MomentView {
        MomentView { nanos: self.nanos, seconds: self.seconds@ }
    }
}

impl MomentView {
    /// Whether a deadline can still be counted from a moment.
    pub open spec fn in_range(self) -> bool {
        self.nanos <= LAST_MOMENT
    }
}

} // verus!
