//! Polling with a doubling pause and a bounded number of further tries.

use vstd::prelude::*;

verus! {

/// Where a poll stands: the pause before the next tick in milliseconds, 0
/// once polling has stopped, and the number of further tries made so far.
#[derive(Clone, Copy, Debug, PartialEq, Eq, Structural)]
pub struct Retry {
    pub interval: u32,
    pub retry: u32,
}

/// The state after a tick. Where the condition no longer asks for another
/// try, or the tries are used up, polling stops. Else the pause doubles and
/// one more try is counted.
pub open spec fn after_tick(state: Retry, again: bool, times: u32) -> Retry {
    if !again || state.retry == times {
        Retry { interval: 0, retry: state.retry }
    } else {
        Retry { interval: (state.interval * 2) as u32, retry: (state.retry + 1) as u32 }
    }
}

impl Retry {
    /// The state before the first tick: a pause of 200 ms and no try made.
    pub fn start() -> (state: Retry)
        ensures
            state == (Retry { interval: 200, retry: 0 }),
    {
        Retry { interval: 200, retry: 0 }
    }

    /// Whether polling goes on.
    pub fn active(&self) -> (running: bool)
        ensures
            running == (self.interval != 0),
    {
        self.interval != 0
    }

    /// The state after one tick, where `again` tells whether the condition
    /// still asks for another try and `times` bounds the further tries.
    pub fn tick(self, again: bool, times: u32) -> (next: Retry)
        requires
            again ==> self.interval * 2 <= u32::MAX,
            again && self.retry != times ==> self.retry < u32::MAX,
        ensures
            next == after_tick(self, again, times),
    {
        if !again {
            return Retry { interval: 0, retry: self.retry };
        }
        let doubled: u32 = self.interval * 2;
        if self.retry == times {
            Retry { interval: 0, retry: self.retry }
        } else {
            Retry { interval: doubled, retry: self.retry + 1 }
        }
    }
}

/// A poll makes at most `times` further tries: once they are used up, the
/// next tick stops it, and a stopped poll stays stopped.
pub proof fn lemma_retry_is_bounded(state: Retry, again: bool, times: u32)
    ensures
        state.retry == times ==> after_tick(state, again, times).interval == 0,
        state.interval == 0 ==> after_tick(state, again, times).interval == 0,
        state.retry <= times ==> after_tick(state, again, times).retry <= times,
{
}

} // verus!
