//! Spans of time, with the same range and precision as `std::time::Duration`
//! (whole seconds in a `u64` and nanoseconds below a second), held as one
//! count of nanoseconds so that contracts can speak of their value.
use vstd::prelude::*;

verus! {

pub const NANOS_PER_SEC: u128 = 1_000_000_000;

/// The longest span: `u64::MAX` seconds and 999 999 999 nanoseconds.
pub const MAX_NANOS: u128 = 18_446_744_073_709_551_615 * 1_000_000_000 + 999_999_999;

/// A span of time.
#[derive(Clone, Copy, Debug, PartialEq, Eq, Structural)]
pub struct Duration {
    nanos: u128,
}

impl View for Duration {
    type V = nat;

    /// The span in nanoseconds.
    closed spec fn view(&self) -> nat {
        self.nanos as nat
    }
}

impl Duration {
    #[verifier::type_invariant]
    spec fn within_range(self) -> bool {
        self.nanos <= MAX_NANOS
    }

    /// The span of `n` nanoseconds.
    pub closed spec fn of_nanos(n: nat) -> Duration {
        Duration { nanos: n as u128 }
    }

    /// What remains of `self` after `rhs`, or zero when `rhs` is longer.
    pub open spec fn saturating_sub_spec(self, rhs: Duration) -> Duration {
        if self@ >= rhs@ {
            Duration::of_nanos((self@ - rhs@) as nat)
        } else {
            Duration::of_nanos(0)
        }
    }

    /// `of_nanos` is exact within range.
    pub proof fn lemma_of_nanos(n: nat)
        requires
            n <= MAX_NANOS,
        ensures
            Duration::of_nanos(n)@ == n,
    {
    }

    /// `Duration::from_secs`.
    pub fn from_secs(secs: u64) -> (r: Duration)
        ensures
            r@ == secs * 1_000_000_000,
    {
        Duration { nanos: secs as u128 * NANOS_PER_SEC }
    }

    /// `Duration::new`: whole seconds among the nanoseconds carry into the
    /// seconds.
    pub fn new(secs: u64, nanos: u32) -> (r: Duration)
        requires
            secs + nanos / 1_000_000_000 <= u64::MAX,
        ensures
            r@ == secs * 1_000_000_000 + nanos,
    {
        proof {
            assert(secs * 1_000_000_000 + nanos == (secs + nanos / 1_000_000_000) * 1_000_000_000
                + nanos % 1_000_000_000);
        }
        Duration { nanos: secs as u128 * NANOS_PER_SEC + nanos as u128 }
    }

    /// Whole seconds (`Duration::as_secs`).
    pub fn as_secs(&self) -> (r: u64)
        ensures
            r == self@ / 1_000_000_000,
    {
        proof {
            use_type_invariant(self);
        }
        (self.nanos / NANOS_PER_SEC) as u64
    }

    /// Nanoseconds below a second (`Duration::subsec_nanos`).
    pub fn subsec_nanos(&self) -> (r: u32)
        ensures
            r == self@ % 1_000_000_000,
    {
        (self.nanos % NANOS_PER_SEC) as u32
    }

    /// `Duration::is_zero`.
    pub fn is_zero(&self) -> (r: bool)
        ensures
            r == (self@ == 0),
    {
        self.nanos == 0
    }

    /// `self >= other`.
    pub fn at_least(&self, other: &Duration) -> (r: bool)
        ensures
            r == (self@ >= other@),
    {
        self.nanos >= other.nanos
    }

    /// `Duration::saturating_sub`.
    pub fn saturating_sub(self, rhs: Duration) -> (r: Duration)
        ensures
            r == self.saturating_sub_spec(rhs),
            r@ == if self@ >= rhs@ {
                self@ - rhs@
            } else {
                0
            },
    {
        proof {
            use_type_invariant(self);
        }
        if self.nanos >= rhs.nanos {
            Duration { nanos: self.nanos - rhs.nanos }
        } else {
            Duration { nanos: 0 }
        }
    }
}

} // verus!
