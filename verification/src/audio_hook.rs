//! What a hook on the audio thread may do: count, and report to the main thread.

use vstd::prelude::*;

verus! {

/// Every how many audio blocks a hook reports to the main thread.
pub const REPORT_INTERVAL: u64 = 100;

/// Counts the audio blocks that a hook on the audio thread has seen. The hook does
/// nothing on the audio thread but count and, now and then, hand a report to the main
/// thread.
#[derive(Clone, Copy, Debug, PartialEq, Eq, Structural)]
pub struct AudioBlockCounter {
    pub counter: u64,
}

impl AudioBlockCounter {
    pub fn new() -> (c: AudioBlockCounter)
        ensures
            c.counter == 0,
    {
        AudioBlockCounter { counter: 0 }
    }

    /// Whether the block with this number is reported.
    pub open spec fn spec_reports(counter: u64) -> bool {
        counter % REPORT_INTERVAL == 0
    }

    /// Counts one block. Hands out the block's number if the block is one to report:
    /// the first block and every hundredth after it.
    pub fn call(&mut self) -> (report: Option<u64>)
        requires
            old(self).counter < u64::MAX,
        ensures
            final(self).counter == old(self).counter + 1,
            report == if AudioBlockCounter::spec_reports(old(self).counter) {
                Some(old(self).counter)
            } else {
                None
            },
    {
        let seen = self.counter;
        self.counter = seen + 1;
        if seen % REPORT_INTERVAL == 0 {
            Some(seen)
        } else {
            None
        }
    }
}

} // verus!
