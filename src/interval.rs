use vstd::prelude::*;

verus! {

/// Nanoseconds in one second.
pub const NANOS_PER_SEC: u32 = 1_000_000_000;

/// A span of time, as whole seconds and the nanoseconds beyond them.
#[derive(Clone, Copy, Debug, PartialEq, Eq, Structural)]
pub struct Interval {
    pub secs: u64,
    pub nanos: u32,
}

impl Interval {
    /// The nanosecond part stays below one second.
    pub open spec fn wf(self) -> bool {
        self.nanos < NANOS_PER_SEC
    }

    /// The whole span in nanoseconds.
    pub open spec fn total_nanos(self) -> int {
        self.secs * 1_000_000_000 + self.nanos
    }

    /// Half of this span, rounded down to the nanosecond: the ping period for
    /// a watchdog timeout of `self`.
    pub fn half(self) -> (r: Interval)
        requires
            self.wf(),
        ensures
            r.wf(),
            r.total_nanos() == self.total_nanos() / 2,
    {
        let secs = self.secs / 2;
        let carry: u32 = (self.secs % 2) as u32;
        let nanos: u32 = self.nanos / 2 + carry * 500_000_000;
        let r = Interval { secs, nanos };
        proof {
            let s = self.secs as int;
            let n = self.nanos as int;
            let q = secs as int;
            let c = carry as int;
            assert(s == 2 * q + c);
            assert(self.total_nanos() == 2 * (q * 1_000_000_000 + c * 500_000_000) + n)
                by (nonlinear_arith)
                requires
                    self.total_nanos() == s * 1_000_000_000 + n,
                    s == 2 * q + c,
            ;
            assert(r.total_nanos() == q * 1_000_000_000 + c * 500_000_000 + n / 2);
        }
        r
    }
}

} // verus!
