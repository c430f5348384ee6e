//! Simulation ticks: a saturating 64-bit clock.

use vstd::prelude::*;

verus! {

/// A simulation tick counter.
#[derive(Clone, Copy, Debug, PartialEq, Eq, Hash, PartialOrd, Ord, Structural)]
pub struct Tick(pub u64);

/// Saturating addition on the tick domain.
pub open spec fn saturating_add_u64(a: u64, b: u64) -> u64 {
    if a + b > u64::MAX { u64::MAX } else { (a + b) as u64 }
}

/// Saturating subtraction on the tick domain.
pub open spec fn saturating_sub_u64(a: u64, b: u64) -> u64 {
    if a < b { 0 } else { (a - b) as u64 }
}

impl Tick {
    pub fn new(value: u64) -> (t: Tick)
        ensures
            t.0 == value,
    {
        Tick(value)
    }

    /// Advances by `amount`, saturating at `u64::MAX`.
    pub fn increment(self, amount: Tick) -> (t: Tick)
        ensures
            t.0 == saturating_add_u64(self.0, amount.0),
    {
        Tick(self.0.saturating_add(amount.0))
    }

    /// Steps back by `amount`, saturating at zero.
    pub fn decrement(self, amount: Tick) -> (t: Tick)
        ensures
            t.0 == saturating_sub_u64(self.0, amount.0),
    {
        Tick(self.0.saturating_sub(amount.0))
    }
}

impl Default for Tick {
    fn default() -> (t: Tick)
        ensures
            t.0 == 0,
    {
        Tick(0)
    }
}

impl From<u64> for Tick {
    fn from(value: u64) -> (t: Tick) {
        Tick(value)
    }
}

impl vstd::std_specs::convert::FromSpecImpl<u64> for Tick {
    open spec fn obeys_from_spec() -> bool {
        true
    }

    open spec fn from_spec(v: u64) -> Tick {
        Tick(v)
    }
}

impl core::ops::Add for Tick {
    type Output = Tick;

    fn add(self, rhs: Tick) -> (t: Tick) {
        self.increment(rhs)
    }
}

impl vstd::std_specs::ops::AddSpecImpl for Tick {
    open spec fn obeys_add_spec() -> bool {
        true
    }

    open spec fn add_req(self, rhs: Tick) -> bool {
        true
    }

    open spec fn add_spec(self, rhs: Tick) -> Tick {
        Tick(saturating_add_u64(self.0, rhs.0))
    }
}

impl core::ops::Sub for Tick {
    type Output = Tick;

    fn sub(self, rhs: Tick) -> (t: Tick) {
        self.decrement(rhs)
    }
}

impl vstd::std_specs::ops::SubSpecImpl for Tick {
    open spec fn obeys_sub_spec() -> bool {
        true
    }

    open spec fn sub_req(self, rhs: Tick) -> bool {
        true
    }

    open spec fn sub_spec(self, rhs: Tick) -> Tick {
        Tick(saturating_sub_u64(self.0, rhs.0))
    }
}

/// Incrementing by zero is the identity, and incrementing never moves a
/// tick backwards.
pub proof fn lemma_increment_monotone(t: Tick, amount: Tick)
    ensures
        saturating_add_u64(t.0, 0) == t.0,
        saturating_add_u64(t.0, amount.0) >= t.0,
        saturating_sub_u64(saturating_add_u64(t.0, amount.0), amount.0) <= t.0,
{
}

} // verus!
