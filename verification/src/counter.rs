//! The count of connection attempts that ended since the last successful open.

use vstd::prelude::*;

verus! {

/// Number of ended attempts, with no open in between, at which the client gives up.
pub const RETRY_LIMIT: u32 = 3;

/// Counts the connection attempts that ended since the last successful open.
/// One counter lives as long as the process; whoever holds it mutably is its
/// only writer.
#[derive(Debug)]
pub struct FailureCounter {
    count: u32,
}

impl View for FailureCounter {
    type V = nat;

    closed spec fn view(&self) -> nat {
        self.count as nat
    }
}

impl FailureCounter {
    /// A counter at zero.
    pub fn new() -> (c: FailureCounter)
        ensures
            c@ == 0,
    {
        FailureCounter { count: 0 }
    }

    /// The current count.
    pub fn value(&self) -> (n: u32)
        ensures
            n == self@,
    {
        self.count
    }

    /// Whether the retry budget is used up.
    pub fn exhausted(&self) -> (b: bool)
        ensures
            b == (self@ >= RETRY_LIMIT),
    {
        self.count >= RETRY_LIMIT
    }

    /// Forgets all ended attempts: a connection has opened.
    pub fn reset(&mut self)
        ensures
            final(self)@ == 0,
        no_unwind
    {
        self.count = 0;
    }

    /// Counts one more ended attempt and says whether the budget is now used up.
    pub fn record(&mut self) -> (exhausted: bool)
        requires
            old(self)@ < u32::MAX,
        ensures
            final(self)@ == old(self)@ + 1,
            exhausted == (final(self)@ >= RETRY_LIMIT),
        no_unwind
    {
        self.count = self.count + 1;
        self.count >= RETRY_LIMIT
    }
}

} // verus!
