//! Signed spans of whole seconds.
//!
//! Block timestamps are reported by miners and need not increase along the
//! chain, so a span between two of them may be negative. Nothing here clamps.

use vstd::prelude::*;

verus! {

/// The quotient of `a` by a positive `b`, rounded toward zero.
pub open spec fn div_toward_zero(a: int, b: int) -> int
    recommends
        b > 0,
{
    if a >= 0 {
        a / b
    } else {
        -((-a) / b)
    }
}

/// A signed number of whole seconds.
#[derive(Clone, Copy, Debug, PartialEq, Eq, Structural)]
pub struct Duration {
    pub secs: i64,
}

impl View for Duration {
    type V = int;

    open spec fn view(&self) -> int {
        self.secs as int
    }
}

impl Duration {
    /// The span of `secs` seconds.
    pub fn seconds(secs: i64) -> (d: Duration)
        ensures
            d@ == secs,
    {
        Duration { secs }
    }

    /// The span in seconds.
    pub fn num_seconds(&self) -> (s: i64)
        ensures
            s == self@,
    {
        self.secs
    }

    /// The whole minutes in the span, rounded toward zero.
    pub fn num_minutes(&self) -> (m: i64)
        ensures
            m == div_toward_zero(self@, 60),
    {
        self.secs / 60
    }

    /// The whole days in the span, rounded toward zero.
    pub fn num_days(&self) -> (d: i64)
        ensures
            d == div_toward_zero(self@, 86_400),
    {
        self.secs / 86_400
    }
}

/// Rounding toward zero never moves a quotient away from zero, nor past the
/// dividend: the quotient lies between zero and `a`.
pub proof fn lemma_div_toward_zero_bounds(a: int, b: int)
    requires
        b > 0,
    ensures
        a >= 0 ==> 0 <= div_toward_zero(a, b) <= a,
        a <= 0 ==> a <= div_toward_zero(a, b) <= 0,
        div_toward_zero(-a, b) == -div_toward_zero(a, b),
{
    if a >= 0 {
        vstd::arithmetic::div_mod::lemma_div_nonincreasing(a, b);
        vstd::arithmetic::div_mod::lemma_div_pos_is_pos(a, b);
    } else {
        vstd::arithmetic::div_mod::lemma_div_nonincreasing(-a, b);
        vstd::arithmetic::div_mod::lemma_div_pos_is_pos(-a, b);
    }
}

} // verus!
