//! The objective system's per-tick step: the match result once a command
//! core is destroyed, and otherwise the breach rules applied to every home
//! objective pair with the transitions they cause.

use crate::ids::PlayerId;
use crate::objective::{advance_pair, advance_spec, ObjectivePresence, ObjectiveState};
use crate::structure::{HomeObjectivePair, StaticStructureId};
use crate::tick::Tick;
use vstd::prelude::*;

verus! {

/// How a match ended.
#[derive(Clone, Copy, Debug, PartialEq, Eq)]
pub enum MatchResult {
    Victory { winner: PlayerId, loser: PlayerId, destroyed_core: StaticStructureId },
    Draw { destroyed_cores: [StaticStructureId; 2] },
}

/// A relay's breach state changed during `tick`.
#[derive(Clone, Copy, Debug, PartialEq, Eq, Structural)]
pub struct ObjectiveTransition {
    pub tick: Tick,
    pub owner: PlayerId,
    pub relay_id: StaticStructureId,
    pub core_id: StaticStructureId,
    pub previous_state: ObjectiveState,
    pub next_state: ObjectiveState,
}

/// The owners and cores of the destroyed command cores, in pair order.
pub open spec fn destroyed_cores(ps: Seq<HomeObjectivePair>) -> Seq<(PlayerId, StaticStructureId)>
    decreases ps.len(),
{
    if ps.len() == 0 {
        seq![]
    } else {
        let rest = destroyed_cores(ps.drop_last());
        if ps.last().core_health.current == 0 {
            rest.push((ps.last().owner, ps.last().core_id))
        } else {
            rest
        }
    }
}

/// The owner of the first pair from index `i` on that is not `loser`'s.
pub open spec fn first_opponent(ps: Seq<HomeObjectivePair>, loser: PlayerId, i: int) -> Option<PlayerId>
    decreases ps.len() - i,
{
    if i < 0 || i >= ps.len() {
        None
    } else if ps[i].owner != loser {
        Some(ps[i].owner)
    } else {
        first_opponent(ps, loser, i + 1)
    }
}

/// Whether a single destroyed core leaves an opposing pair to name the winner.
pub open spec fn result_defined(ps: Seq<HomeObjectivePair>) -> bool {
    let d = destroyed_cores(ps);
    d.len() == 0 || d.len() == 2 || first_opponent(ps, d[0].0, 0) is Some
}

/// The match result: none while every core stands; a draw when exactly two
/// cores fell in the same tick; otherwise the first destroyed core's owner
/// loses to the first player who is not that owner.
pub open spec fn match_result_spec(ps: Seq<HomeObjectivePair>) -> Option<MatchResult> {
    let d = destroyed_cores(ps);
    if d.len() == 0 {
        None
    } else if d.len() == 2 {
        Some(MatchResult::Draw { destroyed_cores: [d[0].1, d[1].1] })
    } else {
        Some(
            MatchResult::Victory {
                winner: first_opponent(ps, d[0].0, 0)->0,
                loser: d[0].0,
                destroyed_core: d[0].1,
            },
        )
    }
}

proof fn lemma_first_opponent_skip(ps: Seq<HomeObjectivePair>, loser: PlayerId, i: int)
    requires
        0 <= i < ps.len(),
        ps[i].owner == loser,
    ensures
        first_opponent(ps, loser, 0) == first_opponent(ps, loser, i) ==> first_opponent(ps, loser, 0)
            == first_opponent(ps, loser, i + 1),
{
}

/// The result of the match after this tick's damage.
pub fn match_result(pairs: &Vec<HomeObjectivePair>) -> (r: Option<MatchResult>)
    requires
        result_defined(pairs@),
    ensures
        r == match_result_spec(pairs@),
{
    let mut destroyed: Vec<(PlayerId, StaticStructureId)> = Vec::new();
    let mut i: usize = 0;
    while i < pairs.len()
        invariant
            i <= pairs.len(),
            destroyed@ == destroyed_cores(pairs@.subrange(0, i as int)),
        decreases pairs.len() - i,
    {
        let pair = pairs[i];
        if pair.core_health.current == 0 {
            destroyed.push((pair.owner, pair.core_id));
        }
        proof {
            let next = pairs@.subrange(0, i + 1);
            assert(next.drop_last() =~= pairs@.subrange(0, i as int));
            assert(next.last() == pair);
        }
        i = i + 1;
    }
    proof {
        assert(pairs@.subrange(0, pairs@.len() as int) =~= pairs@);
    }
    if destroyed.len() == 0 {
        return None;
    }
    if destroyed.len() == 2 {
        return Some(MatchResult::Draw { destroyed_cores: [destroyed[0].1, destroyed[1].1] });
    }
    let (loser, destroyed_core) = destroyed[0];
    let mut j: usize = 0;
    while j < pairs.len()
        invariant
            j <= pairs.len(),
            first_opponent(pairs@, loser, 0) == first_opponent(pairs@, loser, j as int),
            first_opponent(pairs@, loser, 0) is Some,
            destroyed_cores(pairs@).len() != 0 && destroyed_cores(pairs@).len() != 2,
            destroyed_cores(pairs@)[0] == (loser, destroyed_core),
        decreases pairs.len() - j,
    {
        if pairs[j].owner != loser {
            return Some(MatchResult::Victory { winner: pairs[j].owner, loser, destroyed_core });
        }
        proof {
            lemma_first_opponent_skip(pairs@, loser, j as int);
        }
        j = j + 1;
    }
    None
}

/// The transitions that advancing `old` under `presences` causes, in pair order.
pub open spec fn transitions(
    old: Seq<HomeObjectivePair>,
    presences: Seq<ObjectivePresence>,
    tick: Tick,
) -> Seq<ObjectiveTransition>
    decreases old.len(),
{
    if old.len() == 0 {
        seq![]
    } else {
        let rest = transitions(old.drop_last(), presences.drop_last(), tick);
        let p = old.last();
        let next = advance_spec(p, presences.last());
        if next.state != p.state {
            rest.push(
                ObjectiveTransition {
                    tick,
                    owner: p.owner,
                    relay_id: p.relay_id,
                    core_id: p.core_id,
                    previous_state: p.state,
                    next_state: next.state,
                },
            )
        } else {
            rest
        }
    }
}

/// Whether every pair's breach progress can take one more step.
pub open spec fn progress_room(ps: Seq<HomeObjectivePair>) -> bool {
    forall|i: int| 0 <= i < ps.len() ==> #[trigger] ps[i].breach_progress_ticks < u32::MAX
}

/// One tick of the objective system, with the presence near each relay
/// already sampled. A destroyed core ends the match: the result comes back
/// and nothing else changes. Otherwise each pair advances (a frozen system
/// leaves the pairs as they are) and the state changes are appended to
/// `events`.
pub fn run_objectives(
    pairs: &mut Vec<HomeObjectivePair>,
    presences: &Vec<ObjectivePresence>,
    tick: Tick,
    frozen: bool,
    events: &mut Vec<ObjectiveTransition>,
) -> (r: Option<MatchResult>)
    requires
        result_defined(old(pairs)@),
        presences@.len() == old(pairs)@.len(),
        progress_room(old(pairs)@),
    ensures
        r == match_result_spec(old(pairs)@),
        r is Some ==> final(pairs)@ == old(pairs)@ && final(events)@ == old(events)@,
        r is None && frozen ==> final(pairs)@ == old(pairs)@ && final(events)@ == old(events)@,
        r is None && !frozen ==> final(pairs)@.len() == old(pairs)@.len() && (forall|i: int|
            0 <= i < old(pairs)@.len() ==> #[trigger] final(pairs)@[i] == advance_spec(
                old(pairs)@[i],
                presences@[i],
            )) && final(events)@ == old(events)@ + transitions(old(pairs)@, presences@, tick),
{
    let outcome = match_result(pairs);
    if outcome.is_some() {
        return outcome;
    }
    if frozen {
        return None;
    }
    let ghost original = pairs@;
    let ghost original_events = events@;
    let mut i: usize = 0;
    while i < pairs.len()
        invariant
            i <= pairs@.len(),
            pairs@.len() == original.len(),
            presences@.len() == original.len(),
            progress_room(original),
            forall|k: int| 0 <= k < i ==> #[trigger] pairs@[k] == advance_spec(original[k], presences@[k]),
            forall|k: int| i <= k < pairs@.len() ==> #[trigger] pairs@[k] == original[k],
            events@ == original_events + transitions(
                original.subrange(0, i as int),
                presences@.subrange(0, i as int),
                tick,
            ),
        decreases original.len() - i,
    {
        let mut pair = pairs[i];
        let owner = pair.owner;
        let relay_id = pair.relay_id;
        let core_id = pair.core_id;
        assert(pair.breach_progress_ticks < u32::MAX);
        let change = advance_pair(&mut pair, presences[i], false);
        if let Some((previous_state, next_state)) = change {
            events.push(ObjectiveTransition { tick, owner, relay_id, core_id, previous_state, next_state });
        }
        pairs.set(i, pair);
        proof {
            let o = original.subrange(0, i + 1);
            let q = presences@.subrange(0, i + 1);
            assert(o.drop_last() =~= original.subrange(0, i as int));
            assert(q.drop_last() =~= presences@.subrange(0, i as int));
            assert(o.last() == original[i as int]);
            assert(q.last() == presences@[i as int]);
        }
        i = i + 1;
    }
    proof {
        assert(original.subrange(0, original.len() as int) =~= original);
        assert(presences@.subrange(0, original.len() as int) =~= presences@);
    }
    None
}

} // verus!
