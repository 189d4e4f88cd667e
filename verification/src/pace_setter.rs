//! Spacing out the requests for blocks that go to one chain.

use vstd::prelude::*;
use crate::chain::Chain;
use crate::delay::{block_pace, spec_block_pace};

verus! {

/// Nanoseconds in a millisecond.
pub const NANOS_PER_MILLI: u64 = 1_000_000;

/// Remembers when the last request for a block went out. Times are
/// nanoseconds on a clock that does not go back.
#[derive(Debug, Copy, Clone, PartialEq, Eq, Structural)]
pub struct PaceSetter {
    pub chain: Chain,
    pub last_time: u64,
}

impl PaceSetter {
    /// The time still to wait at `now` before the next request may go out:
    /// what is left of the chain's pace since the last request, and nothing
    /// once the pace has passed.
    pub open spec fn spec_wait(&self, now: u64) -> u64 {
        let pace = spec_block_pace(self.chain) * NANOS_PER_MILLI;
        let worked = if now >= self.last_time {
            now - self.last_time
        } else {
            0
        };
        if pace >= worked {
            (pace - worked) as u64
        } else {
            0
        }
    }

    /// A pace setter for `chain` whose last request is taken to have gone
    /// out at `now`.
    pub fn new(chain: Chain, now: u64) -> (pace_setter: PaceSetter)
        ensures
            pace_setter == (PaceSetter { chain, last_time: now }),
    {
        PaceSetter { chain, last_time: now }
    }

    /// The time to sleep at `now` before the next request.
    #[verifier::when_used_as_spec(spec_wait)]
    pub fn wait(&self, now: u64) -> (to_delay: u64)
        ensures
            to_delay == self.spec_wait(now),
            to_delay <= spec_block_pace(self.chain) * NANOS_PER_MILLI,
            now - self.last_time >= spec_block_pace(self.chain) * NANOS_PER_MILLI ==> to_delay == 0,
    {
        let work_duration = now.saturating_sub(self.last_time);
        let pace = block_pace(self.chain) * NANOS_PER_MILLI;
        match pace.checked_sub(work_duration) {
            Some(to_delay) => to_delay,
            None => 0,
        }
    }

    /// Records that the next request goes out at `now`, the wait being over.
    pub fn resume(&mut self, now: u64)
        ensures
            *final(self) == (PaceSetter { chain: old(self).chain, last_time: now }),
    {
        self.last_time = now;
    }
}

} // verus!
