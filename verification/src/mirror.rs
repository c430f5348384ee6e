//! The client's copy of the server's command schedule: authoritative
//! commands wait here, ordered by the tick they run at (and, within a tick,
//! by arrival), until the local simulation reaches that tick.

use crate::command::{AuthoritativeCommand, AuthoritativeCommandView};
use crate::message::pending_view;
use crate::tick::Tick;
use vstd::prelude::*;

verus! {

/// Whether `s` is ordered by execution tick.
pub open spec fn sorted_by_tick(s: Seq<AuthoritativeCommandView>) -> bool {
    forall|i: int, j: int| 0 <= i < j < s.len() ==> s[i].execute_tick.0 <= s[j].execute_tick.0
}

pub open spec fn is_reset(c: AuthoritativeCommandView) -> bool {
    c.command is ResetSimulation
}

/// A command as it is applied at `current`: one that is late runs now.
pub open spec fn raised(c: AuthoritativeCommandView, current: Tick) -> AuthoritativeCommandView {
    if c.execute_tick.0 < current.0 {
        AuthoritativeCommandView { execute_tick: current, ..c }
    } else {
        c
    }
}

/// Whether the first `d` commands of `s` are exactly those due at `current`.
pub open spec fn due_prefix(s: Seq<AuthoritativeCommandView>, current: Tick, d: int) -> bool {
    &&& 0 <= d <= s.len()
    &&& forall|k: int| 0 <= k < d ==> s[k].execute_tick.0 <= current.0
    &&& forall|k: int| d <= k < s.len() ==> s[k].execute_tick.0 > current.0
}

/// Whether `f` is the position of the first reset among the first `d` commands.
pub open spec fn first_reset(s: Seq<AuthoritativeCommandView>, d: int, f: int) -> bool {
    &&& 0 <= f < d
    &&& is_reset(s[f])
    &&& forall|k: int| 0 <= k < f ==> !is_reset(#[trigger] s[k])
}

/// What [`CommandMirror::take_due`] hands to the simulation.
#[derive(Debug)]
pub struct DueCommands {
    /// The commands to schedule, in order, each at the tick it now runs at.
    pub commands: Vec<AuthoritativeCommand>,
    /// A reset was among them: the simulation drops what it had pending,
    /// and `commands` holds that reset alone.
    pub reset_applied: bool,
}

/// Authoritative commands that have arrived but not yet run.
#[derive(Debug)]
pub struct CommandMirror {
    scheduled: Vec<AuthoritativeCommand>,
}

impl View for CommandMirror {
    type V = Seq<AuthoritativeCommandView>;

    closed spec fn view(&self) -> Seq<AuthoritativeCommandView> {
        pending_view(self.scheduled@)
    }
}

impl CommandMirror {
    /// The mirror keeps its commands ordered by tick.
    pub open spec fn wf(&self) -> bool {
        sorted_by_tick(self@)
    }

    pub fn new() -> (m: CommandMirror)
        ensures
            m.wf(),
            m@ == Seq::<AuthoritativeCommandView>::empty(),
    {
        CommandMirror { scheduled: Vec::new() }
    }

    pub fn len(&self) -> (r: usize)
        ensures
            r == self@.len(),
    {
        self.scheduled.len()
    }

    /// Forgets every waiting command.
    pub fn clear(&mut self)
        ensures
            final(self).wf(),
            final(self)@ == Seq::<AuthoritativeCommandView>::empty(),
    {
        self.scheduled = Vec::new();
    }

    /// Adds a command behind every waiting command of the same or an
    /// earlier tick, and before every later one.
    pub fn insert(&mut self, command: AuthoritativeCommand)
        requires
            old(self).wf(),
        ensures
            final(self).wf(),
            exists|p: int|
                0 <= p <= old(self)@.len() && final(self)@ == old(self)@.insert(p, command@) && (forall|k: int|
                    0 <= k < p ==> old(self)@[k].execute_tick.0 <= command.execute_tick.0) && (forall|k: int|
                    p <= k < old(self)@.len() ==> old(self)@[k].execute_tick.0 > command.execute_tick.0),
    {
        let ghost before = self@;
        let n = self.scheduled.len();
        let mut p: usize = n;
        while p > 0 && self.scheduled[p - 1].execute_tick.0 > command.execute_tick.0
            invariant
                n == self.scheduled.len(),
                p <= n,
                before == pending_view(self.scheduled@),
                sorted_by_tick(before),
                forall|k: int| p <= k < n ==> before[k].execute_tick.0 > command.execute_tick.0,
            decreases p,
        {
            proof {
                assert(before[p - 1] == self.scheduled@[p - 1]@);
            }
            p = p - 1;
        }
        proof {
            assert forall|k: int| 0 <= k < p implies before[k].execute_tick.0 <= command.execute_tick.0 by {
                if p > 0 {
                    assert(before[p - 1] == self.scheduled@[p - 1]@);
                    assert(before[p - 1].execute_tick.0 <= command.execute_tick.0);
                }
            }
        }
        let ghost cv = command@;
        self.scheduled.insert(p, command);
        proof {
            assert(self@ =~= before.insert(p as int, cv));
            let s = self@;
            assert forall|i: int, j: int| 0 <= i < j < s.len() implies s[i].execute_tick.0 <= s[j].execute_tick.0 by {
                if i < p as int && j > p as int {
                    assert(s[i] == before[i]);
                    assert(s[j] == before[j - 1]);
                }
            }
        }
    }

    /// Takes the commands due at `current`, in order, each raised to
    /// `current` if late. A reset among them wins: the commands before it
    /// are dropped, it is handed on alone, and the whole schedule is cleared.
    pub fn take_due(&mut self, current: Tick) -> (r: DueCommands)
        requires
            old(self).wf(),
        ensures
            final(self).wf(),
            exists|d: int|
                {
                    &&& #[trigger] due_prefix(old(self)@, current, d)
                    &&& if exists|f: int| #[trigger] first_reset(old(self)@, d, f) {
                        let f = choose|f: int| #[trigger] first_reset(old(self)@, d, f);
                        &&& r.reset_applied
                        &&& pending_view(r.commands@) == seq![raised(old(self)@[f], current)]
                        &&& final(self)@ == Seq::<AuthoritativeCommandView>::empty()
                    } else {
                        &&& !r.reset_applied
                        &&& pending_view(r.commands@) == old(self)@.take(d).map_values(
                            |c: AuthoritativeCommandView| raised(c, current),
                        )
                        &&& final(self)@ == old(self)@.skip(d)
                    }
                },
    {
        let ghost s = self@;
        let n = self.scheduled.len();
        let mut commands: Vec<AuthoritativeCommand> = Vec::new();
        let mut i: usize = 0;
        while i < n && self.scheduled[i].execute_tick.0 <= current.0
            invariant
                s == pending_view(self.scheduled@),
                s == old(self)@,
                n == s.len(),
                n == self.scheduled@.len(),
                sorted_by_tick(s),
                i <= n,
                forall|k: int| 0 <= k < i ==> s[k].execute_tick.0 <= current.0,
                forall|k: int| 0 <= k < i ==> !is_reset(#[trigger] s[k]),
                pending_view(commands@) == s.take(i as int).map_values(|c: AuthoritativeCommandView| raised(c, current)),
            decreases n - i,
        {
            let mut command = self.scheduled[i].duplicate();
            proof {
                assert(s[i as int] == self.scheduled@[i as int]@);
            }
            if command.execute_tick.0 < current.0 {
                command.execute_tick = current;
            }
            if command.command.is_reset() {
                let ghost mut d: int = 0;
                proof {
                    d = Self::lemma_due_prefix_from(s, current, i as int);
                    assert(i < d);
                    assert(is_reset(s[i as int]));
                    assert(first_reset(s, d, i as int));
                    Self::lemma_first_reset_unique(s, d, i as int);
                    assert(command@ == raised(s[i as int], current));
                    assert(due_prefix(s, current, d));
                }
                self.scheduled = Vec::new();
                proof {
                    assert(self@ =~= Seq::<AuthoritativeCommandView>::empty());
                }
                let mut alone: Vec<AuthoritativeCommand> = Vec::new();
                alone.push(command);
                proof {
                    assert(exists|f: int| #[trigger] first_reset(s, d, f));
                    assert(pending_view(alone@) =~= seq![raised(s[i as int], current)]);
                    assert(self@ =~= Seq::<AuthoritativeCommandView>::empty());
                }
                return DueCommands { commands: alone, reset_applied: true };
            }
            let ghost before = commands@;
            commands.push(command);
            proof {
                assert(pending_view(commands@) =~= pending_view(before).push(commands@[i as int]@));
                assert(s.take(i as int + 1) == s.take(i as int).push(s[i as int]));
            }
            i = i + 1;
        }
        let mut rest: Vec<AuthoritativeCommand> = Vec::new();
        let mut j: usize = i;
        while j < n
            invariant
                s == pending_view(self.scheduled@),
                s == old(self)@,
                n == s.len(),
                n == self.scheduled@.len(),
                i <= j <= n,
                pending_view(rest@) == s.subrange(i as int, j as int),
            decreases n - j,
        {
            let ghost before = rest@;
            rest.push(self.scheduled[j].duplicate());
            proof {
                assert(pending_view(rest@) =~= pending_view(before).push(self.scheduled@[j as int]@));
                assert(s.subrange(i as int, j as int + 1) == s.subrange(i as int, j as int).push(s[j as int]));
            }
            j = j + 1;
        }
        proof {
            if i < n {
                assert(s[i as int] == self.scheduled@[i as int]@);
            }
            assert(due_prefix(s, current, i as int));
            assert(!exists|f: int| #[trigger] first_reset(s, i as int, f));
            assert(s.skip(i as int) == s.subrange(i as int, n as int));
        }
        self.scheduled = rest;
        proof {
            assert(self@ == s.skip(i as int));
        }
        DueCommands { commands, reset_applied: false }
    }

    proof fn lemma_due_prefix_from(s: Seq<AuthoritativeCommandView>, current: Tick, d: int) -> (e: int)
        requires
            sorted_by_tick(s),
            0 <= d <= s.len(),
            forall|k: int| 0 <= k < d ==> s[k].execute_tick.0 <= current.0,
        ensures
            due_prefix(s, current, e),
        decreases s.len() - d,
    {
        if d < s.len() && s[d].execute_tick.0 <= current.0 {
            Self::lemma_due_prefix_from(s, current, d + 1)
        } else {
            d
        }
    }

    proof fn lemma_first_reset_unique(s: Seq<AuthoritativeCommandView>, d: int, f: int)
        requires
            first_reset(s, d, f),
        ensures
            forall|g: int| #[trigger] first_reset(s, d, g) ==> g == f,
    {
        assert forall|g: int| #[trigger] first_reset(s, d, g) implies g == f by {
            if g < f {
                assert(!is_reset(s[g]));
            } else if g > f {
                assert(!is_reset(s[f]));
            }
        }
    }
}

} // verus!
