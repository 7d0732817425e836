//! The period at which modules update.
use vstd::prelude::*;

verus! {

/// How often a module updates, in seconds.
#[derive(Clone, Copy, Debug)]
pub struct Timer {
    period_seconds: u64,
}

impl Default for Timer {
    fn default() -> (res: Timer)
        ensures
            res.period() == 10,
    {
        Timer { period_seconds: 10 }
    }
}

impl Timer {
    /// The period in seconds.
    pub closed spec fn period(self) -> u64 {
        self.period_seconds
    }

    /// A timer with a period of `period` seconds.
    pub fn new(period: u64) -> (res: Timer)
        ensures
            res.period() == period,
    {
        Timer { period_seconds: period }
    }

    /// The timer of a module: its own interval where it has one, else the
    /// general one.
    pub fn for_module(general_interval: u64, own_interval: Option<u64>) -> (res: Timer)
        ensures
            res.period() == (match own_interval {
                Some(p) => p,
                None => general_interval,
            }),
    {
        match own_interval {
            Some(p) => Timer::new(p),
            None => Timer::new(general_interval),
        }
    }

    /// The period in seconds.
    pub fn period_seconds(&self) -> (res: u64)
        ensures
            res == self.period(),
    {
        self.period_seconds
    }
}

} // verus!
