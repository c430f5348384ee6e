//! Coarse actuation: autopilot thruster decisions with minimum hold times
//! and a cooldown between decisions.

use crate::input::ShipInput;
use crate::tick::saturating_add_u64;
use vstd::prelude::*;

verus! {

pub const DEFAULT_THRUST_MIN_HOLD_TICKS: u64 = 12;
pub const DEFAULT_TURN_MIN_HOLD_TICKS: u64 = 9;
pub const DEFAULT_DECISION_COOLDOWN_TICKS: u64 = 18;

#[derive(Clone, Copy, Debug, PartialEq, Eq, Structural)]
pub struct ActuationConfig {
    pub thrust_min_hold_ticks: u64,
    pub turn_left_min_hold_ticks: u64,
    pub turn_right_min_hold_ticks: u64,
    pub decision_cooldown_ticks: u64,
}

impl Default for ActuationConfig {
    fn default() -> (c: ActuationConfig)
        ensures
            c == (ActuationConfig {
                thrust_min_hold_ticks: DEFAULT_THRUST_MIN_HOLD_TICKS,
                turn_left_min_hold_ticks: DEFAULT_TURN_MIN_HOLD_TICKS,
                turn_right_min_hold_ticks: DEFAULT_TURN_MIN_HOLD_TICKS,
                decision_cooldown_ticks: DEFAULT_DECISION_COOLDOWN_TICKS,
            }),
    {
        ActuationConfig {
            thrust_min_hold_ticks: DEFAULT_THRUST_MIN_HOLD_TICKS,
            turn_left_min_hold_ticks: DEFAULT_TURN_MIN_HOLD_TICKS,
            turn_right_min_hold_ticks: DEFAULT_TURN_MIN_HOLD_TICKS,
            decision_cooldown_ticks: DEFAULT_DECISION_COOLDOWN_TICKS,
        }
    }
}

/// One thruster: its current setting and the first tick at which it may change.
#[derive(Clone, Copy, Debug, PartialEq, Eq, Structural)]
pub struct Latch {
    pub value: bool,
    pub eligible_at: u64,
}

/// The latched thruster settings and the first tick of the next decision.
#[derive(Clone, Copy, Debug, PartialEq, Eq, Structural)]
pub struct CoarseActuator {
    thrust: Latch,
    left: Latch,
    right: Latch,
    next_decision_tick: u64,
}

/// The mathematical model of a [`CoarseActuator`].
pub struct ActuatorView {
    pub thrust: Latch,
    pub left: Latch,
    pub right: Latch,
    pub next_decision_tick: u64,
}

impl View for CoarseActuator {
    type V = ActuatorView;

    closed spec fn view(&self) -> ActuatorView {
        ActuatorView { thrust: self.thrust, left: self.left, right: self.right, next_decision_tick: self.next_decision_tick }
    }
}

pub open spec fn initial_actuator() -> ActuatorView {
    ActuatorView {
        thrust: Latch { value: false, eligible_at: 0 },
        left: Latch { value: false, eligible_at: 0 },
        right: Latch { value: false, eligible_at: 0 },
        next_decision_tick: 0,
    }
}

/// Whether a latch switches to `wanted` at `tick`.
pub open spec fn switches(l: Latch, wanted: bool, tick: u64) -> bool {
    wanted != l.value && tick >= l.eligible_at
}

pub open spec fn latch_step(l: Latch, wanted: bool, tick: u64, hold: u64) -> Latch {
    if switches(l, wanted, tick) {
        Latch { value: wanted, eligible_at: saturating_add_u64(tick, hold) }
    } else {
        l
    }
}

/// The actuator after a decision at `tick`. Before the decision tick nothing
/// changes; otherwise every thruster whose hold has elapsed follows the
/// desired input, and any change starts the cooldown.
pub open spec fn apply_spec(a: ActuatorView, desired: ShipInput, tick: u64, c: ActuationConfig) -> ActuatorView {
    if tick < a.next_decision_tick {
        a
    } else {
        let changed = switches(a.thrust, desired.thrust, tick) || switches(a.left, desired.turn_left, tick)
            || switches(a.right, desired.turn_right, tick);
        ActuatorView {
            thrust: latch_step(a.thrust, desired.thrust, tick, c.thrust_min_hold_ticks),
            left: latch_step(a.left, desired.turn_left, tick, c.turn_left_min_hold_ticks),
            right: latch_step(a.right, desired.turn_right, tick, c.turn_right_min_hold_ticks),
            next_decision_tick: if changed {
                saturating_add_u64(tick, c.decision_cooldown_ticks)
            } else {
                a.next_decision_tick
            },
        }
    }
}

pub open spec fn output_spec(a: ActuatorView) -> ShipInput {
    ShipInput { thrust: a.thrust.value, turn_left: a.left.value, turn_right: a.right.value }
}

fn step_latch(l: &mut Latch, wanted: bool, tick: u64, hold: u64) -> (changed: bool)
    ensures
        *final(l) == latch_step(*old(l), wanted, tick, hold),
        changed == switches(*old(l), wanted, tick),
{
    if wanted != l.value && tick >= l.eligible_at {
        l.value = wanted;
        l.eligible_at = tick.saturating_add(hold);
        true
    } else {
        false
    }
}

impl Default for CoarseActuator {
    fn default() -> (a: CoarseActuator)
        ensures
            a@ == initial_actuator(),
    {
        CoarseActuator {
            thrust: Latch { value: false, eligible_at: 0 },
            left: Latch { value: false, eligible_at: 0 },
            right: Latch { value: false, eligible_at: 0 },
            next_decision_tick: 0,
        }
    }
}

impl CoarseActuator {
    /// Decides at `tick` and returns the thrusters that fire.
    pub fn apply(&mut self, desired: ShipInput, tick: u64, c: ActuationConfig) -> (r: ShipInput)
        ensures
            final(self)@ == apply_spec(old(self)@, desired, tick, c),
            r == output_spec(final(self)@),
    {
        if tick < self.next_decision_tick {
            return self.output();
        }
        let a = step_latch(&mut self.thrust, desired.thrust, tick, c.thrust_min_hold_ticks);
        let b = step_latch(&mut self.left, desired.turn_left, tick, c.turn_left_min_hold_ticks);
        let d = step_latch(&mut self.right, desired.turn_right, tick, c.turn_right_min_hold_ticks);
        if a || b || d {
            self.next_decision_tick = tick.saturating_add(c.decision_cooldown_ticks);
        }
        self.output()
    }

    /// Lets the next call of [`CoarseActuator::apply`] decide at `tick`.
    pub fn allow_immediate_decision(&mut self, tick: u64)
        ensures
            final(self)@ == (ActuatorView { next_decision_tick: tick, ..old(self)@ }),
    {
        self.next_decision_tick = tick;
    }

    /// Returns to the initial state: nothing fires and anything may change.
    pub fn clear(&mut self)
        ensures
            final(self)@ == initial_actuator(),
    {
        *self = CoarseActuator {
            thrust: Latch { value: false, eligible_at: 0 },
            left: Latch { value: false, eligible_at: 0 },
            right: Latch { value: false, eligible_at: 0 },
            next_decision_tick: 0,
        };
    }

    /// The thrusters that currently fire.
    pub fn output(&self) -> (r: ShipInput)
        ensures
            r == output_spec(self@),
    {
        ShipInput { thrust: self.thrust.value, turn_left: self.left.value, turn_right: self.right.value }
    }
}

/// A thruster that just switched keeps its setting for its minimum hold:
/// no decision before that tick can switch it back.
pub proof fn lemma_hold_is_respected(a: ActuatorView, d1: ShipInput, t1: u64, d2: ShipInput, t2: u64, c: ActuationConfig)
    requires
        t1 >= a.next_decision_tick,
        switches(a.thrust, d1.thrust, t1),
        t1 <= t2 < saturating_add_u64(t1, c.thrust_min_hold_ticks),
    ensures
        apply_spec(apply_spec(a, d1, t1, c), d2, t2, c).thrust.value == d1.thrust,
{
}

/// After a change, the actuator ignores every decision until the cooldown ends.
pub proof fn lemma_cooldown_is_respected(a: ActuatorView, d1: ShipInput, t1: u64, d2: ShipInput, t2: u64, c: ActuationConfig)
    requires
        t1 >= a.next_decision_tick,
        output_spec(apply_spec(a, d1, t1, c)) != output_spec(a),
        t2 < saturating_add_u64(t1, c.decision_cooldown_ticks),
    ensures
        apply_spec(apply_spec(a, d1, t1, c), d2, t2, c) == apply_spec(a, d1, t1, c),
{
}

/// From the initial state, the first decision follows the desired input at once.
pub proof fn lemma_first_decision_is_immediate(desired: ShipInput, tick: u64, c: ActuationConfig)
    ensures
        output_spec(apply_spec(initial_actuator(), desired, tick, c)) == desired,
{
}

} // verus!
