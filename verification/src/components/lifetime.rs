//! Elapsed-time bookkeeping of a one-shot sound.

use vstd::prelude::*;

verus! {

/// How long a one-shot sound lives and how long it has lived, in seconds.
#[derive(Clone, Copy, Debug, PartialEq, Eq)]
pub struct OneShotLifetime {
    pub duration: i64,
    pub elapsed: i64,
}

impl OneShotLifetime {
    /// A lifetime of `duration` of which nothing has elapsed.
    pub fn new(duration: i64) -> (r: Self)
        ensures
            r.duration == duration,
            r.elapsed == 0,
    {
        OneShotLifetime { duration, elapsed: 0 }
    }

    /// Whether the sound has lived out its duration.
    pub open spec fn expired(&self) -> bool {
        self.elapsed >= self.duration
    }
}

} // verus!
