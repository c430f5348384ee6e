//! The deterministic breach rules of the shield relays.

use crate::structure::HomeObjectivePair;
use vstd::prelude::*;

verus! {

pub const SIMULATION_HZ: u32 = 60;
pub const BREACH_DURATION_TICKS: u32 = 12 * SIMULATION_HZ;
pub const DECAY_DURATION_TICKS: u32 = 6 * SIMULATION_HZ;
pub const EXPOSURE_DURATION_TICKS: u32 = 8 * SIMULATION_HZ;
pub const BREACH_PROGRESS_PER_TICK: u32 = 1;
pub const BREACH_DECAY_PER_TICK: u32 = BREACH_DURATION_TICKS / DECAY_DURATION_TICKS;

#[derive(Clone, Copy, Debug, PartialEq, Eq, Hash, PartialOrd, Ord, Structural)]
pub enum ObjectiveState {
    Protected,
    Breaching,
    Contested,
    Decaying,
    Exposed,
}

impl ObjectiveState {
    /// The state's tag in canonical snapshots.
    pub fn canonical_tag(self) -> (t: u8)
        ensures
            t == objective_tag(self),
    {
        match self {
            ObjectiveState::Protected => 1,
            ObjectiveState::Breaching => 2,
            ObjectiveState::Contested => 3,
            ObjectiveState::Decaying => 4,
            ObjectiveState::Exposed => 5,
        }
    }
}

pub open spec fn objective_tag(s: ObjectiveState) -> u8 {
    match s {
        ObjectiveState::Protected => 1,
        ObjectiveState::Breaching => 2,
        ObjectiveState::Contested => 3,
        ObjectiveState::Decaying => 4,
        ObjectiveState::Exposed => 5,
    }
}

/// Which sides have units near a relay during a tick.
#[derive(Clone, Copy, Debug, Default, PartialEq, Eq, Structural)]
pub struct ObjectivePresence {
    pub has_attacker: bool,
    pub has_defender: bool,
}

/// The pair after one tick with the given presence: its state, breach
/// progress and remaining exposure.
pub open spec fn advance_spec(pair: HomeObjectivePair, presence: ObjectivePresence) -> HomeObjectivePair {
    let progress = pair.breach_progress_ticks;
    let exposure = pair.exposure_ticks_remaining;
    if pair.state == ObjectiveState::Exposed {
        let e = if exposure == 0 { 0 } else { (exposure - 1) as u32 };
        if e == 0 {
            HomeObjectivePair { state: ObjectiveState::Protected, breach_progress_ticks: 0, exposure_ticks_remaining: 0, ..pair }
        } else {
            HomeObjectivePair { exposure_ticks_remaining: e, ..pair }
        }
    } else if presence.has_attacker && presence.has_defender {
        HomeObjectivePair { state: ObjectiveState::Contested, exposure_ticks_remaining: 0, ..pair }
    } else if presence.has_attacker {
        let p = if progress + BREACH_PROGRESS_PER_TICK >= BREACH_DURATION_TICKS {
            BREACH_DURATION_TICKS
        } else {
            (progress + BREACH_PROGRESS_PER_TICK) as u32
        };
        if p == BREACH_DURATION_TICKS {
            HomeObjectivePair { state: ObjectiveState::Exposed, breach_progress_ticks: p, exposure_ticks_remaining: EXPOSURE_DURATION_TICKS, ..pair }
        } else {
            HomeObjectivePair { state: ObjectiveState::Breaching, breach_progress_ticks: p, exposure_ticks_remaining: 0, ..pair }
        }
    } else if progress > 0 {
        let p = if progress < BREACH_DECAY_PER_TICK { 0 } else { (progress - BREACH_DECAY_PER_TICK) as u32 };
        HomeObjectivePair {
            state: if p == 0 { ObjectiveState::Protected } else { ObjectiveState::Decaying },
            breach_progress_ticks: p,
            exposure_ticks_remaining: 0,
            ..pair
        }
    } else {
        HomeObjectivePair { state: ObjectiveState::Protected, exposure_ticks_remaining: 0, ..pair }
    }
}

/// Advances one pair after presence has been sampled for this tick and
/// reports a state change as `(previous, next)`. A frozen pair does not change.
pub fn advance_pair(
    pair: &mut HomeObjectivePair,
    presence: ObjectivePresence,
    frozen: bool,
) -> (r: Option<(ObjectiveState, ObjectiveState)>)
    requires
        old(pair).breach_progress_ticks < u32::MAX,
    ensures
        frozen ==> *final(pair) == *old(pair) && r is None,
        !frozen ==> *final(pair) == advance_spec(*old(pair), presence),
        !frozen ==> (r == if old(pair).state != final(pair).state {
            Some((old(pair).state, final(pair).state))
        } else {
            None
        }),
{
    if frozen {
        return None;
    }
    let previous = pair.state;
    let mut state = previous;
    let mut progress = pair.breach_progress_ticks;
    let mut exposure = pair.exposure_ticks_remaining;

    if state == ObjectiveState::Exposed {
        exposure = exposure.saturating_sub(1);
        if exposure == 0 {
            state = ObjectiveState::Protected;
            progress = 0;
        }
    } else if presence.has_attacker && presence.has_defender {
        state = ObjectiveState::Contested;
        exposure = 0;
    } else if presence.has_attacker {
        progress = if progress + BREACH_PROGRESS_PER_TICK >= BREACH_DURATION_TICKS {
            BREACH_DURATION_TICKS
        } else {
            progress + BREACH_PROGRESS_PER_TICK
        };
        exposure = 0;
        state = if progress == BREACH_DURATION_TICKS {
            exposure = EXPOSURE_DURATION_TICKS;
            ObjectiveState::Exposed
        } else {
            ObjectiveState::Breaching
        };
    } else if progress > 0 {
        progress = progress.saturating_sub(BREACH_DECAY_PER_TICK);
        exposure = 0;
        state = if progress == 0 {
            ObjectiveState::Protected
        } else {
            ObjectiveState::Decaying
        };
    } else {
        state = ObjectiveState::Protected;
        exposure = 0;
    }

    pair.set_objective_state(state, progress, exposure);
    if previous != state {
        Some((previous, state))
    } else {
        None
    }
}

/// The consistency of a pair's breach state: progress and exposure stay in
/// range, a protected relay has no progress, an exposed relay is fully
/// breached and counting down, and only an exposed relay counts exposure.
pub open spec fn objective_wf(pair: HomeObjectivePair) -> bool {
    let p = pair.breach_progress_ticks;
    let e = pair.exposure_ticks_remaining;
    &&& p <= BREACH_DURATION_TICKS
    &&& e <= EXPOSURE_DURATION_TICKS
    &&& match pair.state {
        ObjectiveState::Protected => p == 0 && e == 0,
        ObjectiveState::Breaching => 0 < p < BREACH_DURATION_TICKS && e == 0,
        ObjectiveState::Contested => p < BREACH_DURATION_TICKS && e == 0,
        ObjectiveState::Decaying => 0 < p < BREACH_DURATION_TICKS && e == 0,
        ObjectiveState::Exposed => p == BREACH_DURATION_TICKS && 0 < e,
    }
}

/// Every tick keeps a pair consistent, and leaves its owner, its structures
/// and its core health alone.
pub proof fn lemma_advance_preserves_wf(pair: HomeObjectivePair, presence: ObjectivePresence)
    requires
        objective_wf(pair),
    ensures
        objective_wf(advance_spec(pair, presence)),
        advance_spec(pair, presence).owner == pair.owner,
        advance_spec(pair, presence).core_id == pair.core_id,
        advance_spec(pair, presence).relay_id == pair.relay_id,
        advance_spec(pair, presence).core_health == pair.core_health,
{
}

/// While a relay is exposed, presence has no influence on its next state.
pub proof fn lemma_exposure_ignores_presence(
    pair: HomeObjectivePair,
    a: ObjectivePresence,
    b: ObjectivePresence,
)
    requires
        pair.state == ObjectiveState::Exposed,
    ensures
        advance_spec(pair, a) == advance_spec(pair, b),
{
}

/// A contested relay never completes its breach in that tick.
pub proof fn lemma_contest_blocks_completion(pair: HomeObjectivePair)
    requires
        objective_wf(pair),
        pair.state != ObjectiveState::Exposed,
    ensures
        advance_spec(pair, ObjectivePresence { has_attacker: true, has_defender: true }).state
            == ObjectiveState::Contested,
        advance_spec(pair, ObjectivePresence { has_attacker: true, has_defender: true }).breach_progress_ticks
            == pair.breach_progress_ticks,
{
}

/// The pair after `n` ticks with the same presence.
pub open spec fn advance_n(pair: HomeObjectivePair, presence: ObjectivePresence, n: nat) -> HomeObjectivePair
    decreases n,
{
    if n == 0 {
        pair
    } else {
        advance_spec(advance_n(pair, presence, (n - 1) as nat), presence)
    }
}

/// An uncontested attacker breaches a protected relay in exactly
/// [`BREACH_DURATION_TICKS`] ticks: before that the relay is breaching with
/// one tick of progress per tick, and at that tick it becomes exposed for
/// [`EXPOSURE_DURATION_TICKS`].
pub proof fn lemma_breach_takes_exact_duration(pair: HomeObjectivePair, n: nat)
    requires
        pair.state == ObjectiveState::Protected,
        pair.breach_progress_ticks == 0,
        1 <= n <= BREACH_DURATION_TICKS,
    ensures
        n < BREACH_DURATION_TICKS ==> advance_n(pair, ObjectivePresence { has_attacker: true, has_defender: false }, n).state
            == ObjectiveState::Breaching,
        advance_n(pair, ObjectivePresence { has_attacker: true, has_defender: false }, n).breach_progress_ticks == n,
        n == BREACH_DURATION_TICKS ==> advance_n(pair, ObjectivePresence { has_attacker: true, has_defender: false }, n).state
            == ObjectiveState::Exposed,
        n == BREACH_DURATION_TICKS ==> advance_n(pair, ObjectivePresence { has_attacker: true, has_defender: false }, n).exposure_ticks_remaining
            == EXPOSURE_DURATION_TICKS,
    decreases n,
{
    let att = ObjectivePresence { has_attacker: true, has_defender: false };
    assert(BREACH_DURATION_TICKS == 720);
    assert(EXPOSURE_DURATION_TICKS == 480);
    if n > 1 {
        lemma_breach_takes_exact_duration(pair, (n - 1) as nat);
    }
    let prev = advance_n(pair, att, (n - 1) as nat);
    assert(advance_n(pair, att, n) == advance_spec(prev, att));
    if n == 1 {
        assert(prev == pair);
    }
}

/// A fully breached relay left alone decays back to protected in exactly
/// [`DECAY_DURATION_TICKS`] ticks.
pub proof fn lemma_decay_takes_exact_duration(pair: HomeObjectivePair, n: nat)
    requires
        pair.state != ObjectiveState::Exposed,
        pair.breach_progress_ticks == BREACH_DURATION_TICKS,
        1 <= n <= DECAY_DURATION_TICKS,
    ensures
        advance_n(pair, ObjectivePresence { has_attacker: false, has_defender: false }, n).breach_progress_ticks
            == BREACH_DURATION_TICKS - n * BREACH_DECAY_PER_TICK,
        n < DECAY_DURATION_TICKS ==> advance_n(pair, ObjectivePresence { has_attacker: false, has_defender: false }, n).state
            == ObjectiveState::Decaying,
        n == DECAY_DURATION_TICKS ==> advance_n(pair, ObjectivePresence { has_attacker: false, has_defender: false }, n).state
            == ObjectiveState::Protected,
    decreases n,
{
    let none = ObjectivePresence { has_attacker: false, has_defender: false };
    assert(BREACH_DURATION_TICKS == 720);
    assert(DECAY_DURATION_TICKS == 360);
    assert(BREACH_DECAY_PER_TICK == 2);
    if n > 1 {
        lemma_decay_takes_exact_duration(pair, (n - 1) as nat);
    }
    let prev = advance_n(pair, none, (n - 1) as nat);
    assert(advance_n(pair, none, n) == advance_spec(prev, none));
    if n == 1 {
        assert(prev == pair);
    }
}

/// Without an attacker, a defender changes nothing: a relay that is not
/// exposed takes the same next step whether or not a defender is present.
/// A breach in progress loses [`BREACH_DECAY_PER_TICK`] ticks of progress
/// (down to zero) and decays, or is protected once no progress is left;
/// a relay without progress is protected and keeps it.
pub proof fn lemma_defender_alone_only_lets_decay(pair: HomeObjectivePair, defender: bool)
    requires
        pair.state != ObjectiveState::Exposed,
    ensures
        advance_spec(pair, ObjectivePresence { has_attacker: false, has_defender: defender })
            == advance_spec(pair, ObjectivePresence { has_attacker: false, has_defender: false }),
        ({
            let next = advance_spec(pair, ObjectivePresence { has_attacker: false, has_defender: defender });
            let p = pair.breach_progress_ticks;
            &&& next.owner == pair.owner && next.core_id == pair.core_id && next.relay_id == pair.relay_id
            &&& next.exposure_ticks_remaining == 0
            &&& p >= BREACH_DECAY_PER_TICK ==> next.breach_progress_ticks == p - BREACH_DECAY_PER_TICK
            &&& p < BREACH_DECAY_PER_TICK ==> next.breach_progress_ticks == 0
            &&& next.state == (if next.breach_progress_ticks > 0 {
                ObjectiveState::Decaying
            } else {
                ObjectiveState::Protected
            })
        }),
{
    assert(BREACH_DECAY_PER_TICK == 2);
}

/// What one tick does for each kind of presence. An exposed relay counts
/// its exposure down by one whoever is present, and is protected again,
/// with no progress, when it runs out. Otherwise both sides present contest
/// the relay and freeze its progress; an attacker alone adds
/// [`BREACH_PROGRESS_PER_TICK`] of progress, up to [`BREACH_DURATION_TICKS`],
/// where the relay becomes exposed for [`EXPOSURE_DURATION_TICKS`]. The pair's
/// owner and structures never change.
pub proof fn lemma_step_by_presence(pair: HomeObjectivePair, presence: ObjectivePresence)
    ensures
        ({
            let next = advance_spec(pair, presence);
            let p = pair.breach_progress_ticks;
            let e = pair.exposure_ticks_remaining;
            &&& next.owner == pair.owner && next.core_id == pair.core_id && next.relay_id == pair.relay_id
            &&& pair.state == ObjectiveState::Exposed && e > 1 ==> next.state == ObjectiveState::Exposed
                && next.exposure_ticks_remaining == e - 1 && next.breach_progress_ticks == p
            &&& pair.state == ObjectiveState::Exposed && e <= 1 ==> next.state == ObjectiveState::Protected
                && next.exposure_ticks_remaining == 0 && next.breach_progress_ticks == 0
            &&& pair.state != ObjectiveState::Exposed && presence.has_attacker && presence.has_defender ==> next.state
                == ObjectiveState::Contested && next.breach_progress_ticks == p && next.exposure_ticks_remaining == 0
            &&& pair.state != ObjectiveState::Exposed && presence.has_attacker && !presence.has_defender && p + 1
                < BREACH_DURATION_TICKS ==> next.state == ObjectiveState::Breaching && next.breach_progress_ticks
                == p + 1 && next.exposure_ticks_remaining == 0
            &&& pair.state != ObjectiveState::Exposed && presence.has_attacker && !presence.has_defender && p + 1
                >= BREACH_DURATION_TICKS ==> next.state == ObjectiveState::Exposed && next.breach_progress_ticks
                == BREACH_DURATION_TICKS && next.exposure_ticks_remaining == EXPOSURE_DURATION_TICKS
        }),
{
    assert(BREACH_PROGRESS_PER_TICK == 1);
}

} // verus!
