use vstd::prelude::*;

verus! {

/// Nanoseconds in one second.
pub const NANOS_PER_SEC: u64 = 1_000_000_000;

/// A non-negative span of time held as whole seconds plus a sub-second part
/// in nanoseconds, so that every computation on it is exact.
#[derive(Debug, Clone, Copy, PartialEq, Eq)]
pub struct TimeSpan {
    secs: u64,
    nanos: u32,
}

/// Nanoseconds taken by `frames` sample frames at `rate` Hz, rounded down.
pub open spec fn span_nanos(frames: nat, rate: nat) -> int
    recommends
        rate > 0,
{
    (frames * 1_000_000_000) as int / (rate as int)
}

impl TimeSpan {
    #[verifier::type_invariant]
    spec fn inv(&self) -> bool {
        self.nanos < 1_000_000_000
    }

    /// Whole seconds of the span.
    pub closed spec fn spec_secs(&self) -> u64 {
        self.secs
    }

    /// Sub-second part of the span, in nanoseconds.
    pub closed spec fn spec_subsec_nanos(&self) -> u32 {
        self.nanos
    }

    /// Length of the span in nanoseconds.
    pub open spec fn total_nanos(&self) -> int {
        self.spec_secs() * 1_000_000_000 + self.spec_subsec_nanos()
    }

    /// A span of whole seconds.
    pub fn from_secs(secs: u64) -> (r: TimeSpan)
        ensures
            r.spec_secs() == secs,
            r.spec_subsec_nanos() == 0,
            r.total_nanos() == secs * 1_000_000_000,
    {
        TimeSpan { secs, nanos: 0 }
    }

    /// A span from whole seconds and a sub-second part below one second.
    pub fn new(secs: u64, nanos: u32) -> (r: TimeSpan)
        requires
            nanos < 1_000_000_000,
        ensures
            r.spec_secs() == secs,
            r.spec_subsec_nanos() == nanos,
    {
        TimeSpan { secs, nanos }
    }

    /// Whole seconds of the span.
    pub fn as_secs(&self) -> (r: u64)
        ensures
            r == self.spec_secs(),
    {
        self.secs
    }

    /// Sub-second part of the span, in nanoseconds.
    pub fn subsec_nanos(&self) -> (r: u32)
        ensures
            r == self.spec_subsec_nanos(),
            r < 1_000_000_000,
    {
        proof { use_type_invariant(self); }
        self.nanos
    }

    /// Time taken by `frames` sample frames at `rate` Hz, rounded down to
    /// the nanosecond.
    pub fn of_frames(frames: u64, rate: u32) -> (r: TimeSpan)
        requires
            rate > 0,
        ensures
            r.total_nanos() == span_nanos(frames as nat, rate as nat),
    {
        let secs: u64 = frames / (rate as u64);
        let rem: u64 = frames % (rate as u64);
        proof {
            assert(rem < rate) by (nonlinear_arith)
                requires rem == frames % (rate as u64), rate > 0;
            assert(rem * 1_000_000_000 < 0x1_0000_0000 * 1_000_000_000) by (nonlinear_arith)
                requires rem < rate, rate <= 0xffff_ffff;
        }
        let nanos: u64 = rem * NANOS_PER_SEC / (rate as u64);
        proof {
            lemma_split_div(frames as int, rate as int, secs as int, rem as int, nanos as int);
        }
        TimeSpan { secs, nanos: nanos as u32 }
    }
}

proof fn lemma_split_div(f: int, d: int, q: int, r: int, n: int)
    requires
        d > 0,
        f >= 0,
        q == f / d,
        r == f % d,
        n == (r * 1_000_000_000) / d,
    ensures
        n < 1_000_000_000,
        q * 1_000_000_000 + n == (f * 1_000_000_000) / d,
{
    let m = (r * 1_000_000_000) % d;
    assert(f == q * d + r && 0 <= r < d) by (nonlinear_arith)
        requires d > 0, q == f / d, r == f % d;
    assert(n < 1_000_000_000) by (nonlinear_arith)
        requires n == (r * 1_000_000_000) / d, 0 <= r < d;
    assert(r * 1_000_000_000 == n * d + m && 0 <= m < d) by (nonlinear_arith)
        requires d > 0, n == (r * 1_000_000_000) / d, m == (r * 1_000_000_000) % d;
    assert(f * 1_000_000_000 == (q * 1_000_000_000 + n) * d + m) by (nonlinear_arith)
        requires f == q * d + r, r * 1_000_000_000 == n * d + m;
    vstd::arithmetic::div_mod::lemma_fundamental_div_mod_converse(
        f * 1_000_000_000, d, q * 1_000_000_000 + n, m);
}

} // verus!
