//! Event-rate measurement over fixed periods, on caller-supplied clock
//! readings in nanoseconds.
use vstd::prelude::*;

verus! {

/// Nanoseconds in one second.
pub const NANOS_PER_SECOND: u128 = 1_000_000_000;

/// Events counted over an elapsed span.
#[derive(Debug, Clone, Copy, PartialEq, Eq, Structural)]
pub struct Rate {
    pub count: usize,
    pub elapsed_ns: u128,
}

impl Rate {
    /// The rate in events per thousand seconds, rounded down; `None` for an
    /// empty span.
    pub fn millihertz(&self) -> (r: Option<u128>)
        ensures
            self.elapsed_ns == 0 ==> r is None,
            self.elapsed_ns > 0 ==> r == Some(
                (self.count as int * 1000 * NANOS_PER_SECOND as int / self.elapsed_ns as int) as u128,
            ),
    {
        if self.elapsed_ns == 0 {
            None
        } else {
            let scaled: u128 = (self.count as u128) * 1000 * NANOS_PER_SECOND;
            Some(scaled / self.elapsed_ns)
        }
    }
}

/// Counts events and reports their rate once per period.
#[derive(Debug, Clone, Copy, PartialEq, Eq, Structural)]
pub struct RateMeter {
    pub period_ns: u128,
    pub count: usize,
    pub start_ns: u128,
}

/// `a + b`, capped at `usize::MAX`.
pub open spec fn capped_sum(a: usize, b: usize) -> usize {
    if a + b > usize::MAX {
        usize::MAX
    } else {
        (a + b) as usize
    }
}

/// Time from `start` to `now`, zero if the clock reads earlier.
pub open spec fn elapsed_since(start: u128, now: u128) -> u128 {
    if now >= start {
        (now - start) as u128
    } else {
        0
    }
}

impl RateMeter {
    /// A meter with the given period, started at `now_ns`.
    pub fn new(period_ns: u128, now_ns: u128) -> (r: Self)
        ensures
            r == (RateMeter { period_ns, count: 0, start_ns: now_ns }),
    {
        RateMeter { period_ns, count: 0, start_ns: now_ns }
    }

    /// A meter with a one-second period, started at `now_ns`.
    pub fn seconds(now_ns: u128) -> (r: Self)
        ensures
            r == (RateMeter { period_ns: NANOS_PER_SECOND, count: 0, start_ns: now_ns }),
    {
        Self::new(NANOS_PER_SECOND, now_ns)
    }

    /// Adds `count` events at `now_ns`. Once a full period has elapsed,
    /// returns the events and the span they were counted over, and starts a
    /// new period at `now_ns`.
    pub fn tick(&mut self, count: usize, now_ns: u128) -> (r: Option<Rate>)
        ensures
            ({
                let total = capped_sum(old(self).count, count);
                let elapsed = elapsed_since(old(self).start_ns, now_ns);
                if elapsed >= old(self).period_ns {
                    &&& r == Some(Rate { count: total, elapsed_ns: elapsed })
                    &&& *final(self) == RateMeter { count: 0, start_ns: now_ns, ..*old(self) }
                } else {
                    &&& r is None
                    &&& *final(self) == RateMeter { count: total, ..*old(self) }
                }
            }),
    {
        let total = if count > usize::MAX - self.count {
            usize::MAX
        } else {
            self.count + count
        };
        let elapsed = if now_ns >= self.start_ns {
            now_ns - self.start_ns
        } else {
            0
        };
        if elapsed >= self.period_ns {
            self.count = 0;
            self.start_ns = now_ns;
            Some(Rate { count: total, elapsed_ns: elapsed })
        } else {
            self.count = total;
            None
        }
    }
}

} // verus!
