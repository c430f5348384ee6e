//! The local player's unit selection and the destination commands it
//! issues. Which units a click or a drag rectangle covers is geometry that
//! the host works out; this state machine decides what the selection becomes
//! and when a command is sent.

use crate::command::{CommandData, CommandRequest};
use vstd::prelude::*;

verus! {

broadcast use vstd::seq_lib::lemma_seq_contains_after_push;

/// Whether `s` is strictly increasing, hence free of repeats.
pub open spec fn strictly_increasing(s: Seq<u32>) -> bool {
    forall|i: int, j: int| 0 <= i < j < s.len() ==> s[i] < s[j]
}

/// What the player did with the pointer, with the geometry already worked out.
#[derive(Clone, Debug, PartialEq, Eq)]
pub enum ClientControl {
    /// A click picked this unit of the player's, or none.
    ClickSelect { picked: Option<u32> },
    /// The drag rectangle now covers these units of the player's.
    DragSelect { covered: Vec<u32> },
    CommitDrag,
    CancelDrag,
    ClearSelection,
    /// Send the selected units to a destination, given as the bit patterns of
    /// its two coordinates.
    SetDestination { destination: [u32; 2] },
}

/// What the host must do after a control.
#[derive(Clone, Debug, PartialEq, Eq)]
pub enum ClientEffect {
    Send(CommandRequest),
}

/// The selection state. Both id lists are kept sorted without repeats.
#[derive(Debug)]
pub struct Client {
    selected: Vec<u32>,
    preview: Vec<u32>,
    dragging: bool,
    next_sequence: u32,
}

/// The model of a [`Client`].
pub struct ClientView {
    pub selected: Set<u32>,
    pub preview: Set<u32>,
    pub dragging: bool,
    pub next_sequence: u32,
}

impl View for Client {
    type V = ClientView;

    closed spec fn view(&self) -> ClientView {
        ClientView {
            selected: self.selected@.to_set(),
            preview: self.preview@.to_set(),
            dragging: self.dragging,
            next_sequence: self.next_sequence,
        }
    }
}

/// The sorted, repeat-free list of the ids in `ids`.
pub fn id_set(ids: &[u32]) -> (r: Vec<u32>)
    ensures
        strictly_increasing(r@),
        r@.to_set() == ids@.to_set(),
{
    let mut r: Vec<u32> = Vec::new();
    let n = ids.len();
    let mut i: usize = 0;
    while i < n
        invariant
            n == ids@.len(),
            i <= n,
            strictly_increasing(r@),
            forall|x: u32| r@.contains(x) <==> ids@.take(i as int).contains(x),
        decreases n - i,
    {
        let x = ids[i];
        let m = r.len();
        let mut p: usize = 0;
        while p < m && r[p] < x
            invariant
                m == r@.len(),
                p <= m,
                forall|k: int| 0 <= k < p ==> r@[k] < x,
            decreases m - p,
        {
            p = p + 1;
        }
        let ghost before = r@;
        proof {
            assert(ids@.take(i as int + 1) == ids@.take(i as int).push(x));
        }
        if p < m && r[p] == x {
            proof {
                assert(before[p as int] == x);
                assert forall|y: u32| r@.contains(y) <==> ids@.take(i as int + 1).contains(y) by {
                    assert(ids@.take(i as int).push(x).contains(y) <==> (y == x || ids@.take(i as int).contains(y)));
                }
            }
        } else {
            r.insert(p, x);
            proof {
                assert forall|a: int, b: int| 0 <= a < b < r@.len() implies r@[a] < r@[b] by {
                    if b < p as int {
                    } else if a > p as int {
                        assert(r@[a] == before[a - 1] && r@[b] == before[b - 1]);
                    } else if a == p as int {
                        assert(r@[b] == before[b - 1]);
                        assert(before[p as int] > x);
                        if b - 1 > p as int {
                            assert(before[p as int] < before[b - 1]);
                        }
                    } else {
                        assert(r@[a] == before[a]);
                        if b == p as int {
                        } else {
                            assert(r@[b] == before[b - 1]);
                            assert(before[a] < before[b - 1]);
                        }
                    }
                }
                assert forall|y: u32| r@.contains(y) <==> ids@.take(i as int + 1).contains(y) by {
                    if r@.contains(y) {
                        let k = choose|k: int| 0 <= k < r@.len() && r@[k] == y;
                        if k < p as int {
                            assert(before[k] == y);
                        } else if k > p as int {
                            assert(before[k - 1] == y);
                        }
                    }
                    if before.contains(y) {
                        let k = choose|k: int| 0 <= k < before.len() && before[k] == y;
                        if k < p as int {
                            assert(r@[k] == y);
                        } else {
                            assert(r@[k + 1] == y);
                        }
                    }
                    if y == x {
                        assert(r@[p as int] == x);
                    }
                    assert(ids@.take(i as int).push(x).contains(y) <==> (y == x || ids@.take(i as int).contains(y)));
                }
            }
        }
        i = i + 1;
    }
    proof {
        assert(ids@.take(n as int) == ids@);
        assert(r@.to_set() =~= ids@.to_set());
    }
    r
}

impl Client {
    /// Both id lists are sorted without repeats.
    pub closed spec fn wf(&self) -> bool {
        strictly_increasing(self.selected@) && strictly_increasing(self.preview@)
    }

    /// Nothing selected; the first command gets sequence number 1.
    pub fn new() -> (c: Client)
        ensures
            c.wf(),
            c@.selected.is_empty(),
            c@.preview.is_empty(),
            !c@.dragging,
            c@.next_sequence == 1,
    {
        let c = Client { selected: Vec::new(), preview: Vec::new(), dragging: false, next_sequence: 1 };
        proof {
            assert(c@.selected =~= Set::empty());
            assert(c@.preview =~= Set::empty());
        }
        c
    }

    /// The selected unit ids, in increasing order.
    pub fn selected(&self) -> (r: &[u32])
        requires
            self.wf(),
        ensures
            strictly_increasing(r@),
            r@.to_set() == self@.selected,
    {
        self.selected.as_slice()
    }

    /// The unit ids under the drag rectangle, in increasing order.
    pub fn preview(&self) -> (r: &[u32])
        requires
            self.wf(),
        ensures
            strictly_increasing(r@),
            r@.to_set() == self@.preview,
    {
        self.preview.as_slice()
    }

    pub fn dragging(&self) -> (r: bool)
        ensures
            r == self@.dragging,
    {
        self.dragging
    }

    /// Forgets the selection and any drag.
    pub fn clear(&mut self)
        ensures
            final(self).wf(),
            final(self)@ == (ClientView {
                selected: Set::empty(),
                preview: Set::empty(),
                dragging: false,
                next_sequence: old(self)@.next_sequence,
            }),
    {
        self.selected = Vec::new();
        self.preview = Vec::new();
        self.dragging = false;
        proof {
            assert(self@.selected =~= Set::empty());
            assert(self@.preview =~= Set::empty());
        }
    }

    /// The world advanced: the selection keeps only units the player still
    /// owns, and a drag rectangle now covers `covered`.
    pub fn world_advanced(&mut self, still_owned: &[u32], covered: &[u32])
        requires
            old(self).wf(),
        ensures
            final(self).wf(),
            final(self)@ == (ClientView {
                selected: old(self)@.selected.intersect(still_owned@.to_set()),
                preview: if old(self)@.dragging { covered@.to_set() } else { old(self)@.preview },
                ..old(self)@
            }),
    {
        let owned = id_set(still_owned);
        let mut kept: Vec<u32> = Vec::new();
        let n = self.selected.len();
        let mut i: usize = 0;
        while i < n
            invariant
                n == self.selected@.len(),
                i <= n,
                strictly_increasing(self.selected@),
                strictly_increasing(owned@),
                owned@.to_set() == still_owned@.to_set(),
                strictly_increasing(kept@),
                forall|x: u32| kept@.contains(x) <==> (self.selected@.take(i as int).contains(x)
                    && owned@.contains(x)),
            decreases n - i,
        {
            let x = self.selected[i];
            let mut present = false;
            let m = owned.len();
            let mut j: usize = 0;
            while j < m
                invariant
                    m == owned@.len(),
                    j <= m,
                    present <==> owned@.take(j as int).contains(x),
                decreases m - j,
            {
                proof {
                    assert(owned@.take(j as int + 1) == owned@.take(j as int).push(owned@[j as int]));
                }
                if owned[j] == x {
                    present = true;
                }
                j = j + 1;
            }
            proof {
                assert(owned@.take(m as int) == owned@);
                assert(self.selected@.take(i as int + 1) == self.selected@.take(i as int).push(x));
                assert(still_owned@.to_set().contains(x) == owned@.contains(x));
            }
            if present {
                proof {
                    assert forall|k: int| 0 <= k < kept@.len() implies kept@[k] < x by {
                        let y = kept@[k];
                        assert(kept@.contains(y));
                        let t = self.selected@.take(i as int);
                        assert(t.contains(y));
                        let j = choose|j: int| 0 <= j < t.len() && t[j] == y;
                        assert(self.selected@[j] == y);
                    }
                }
                kept.push(x);
            }
            i = i + 1;
        }
        proof {
            assert(self.selected@.take(n as int) == self.selected@);
            assert forall|x: u32| kept@.contains(x) <==> (self.selected@.contains(x)
                && still_owned@.to_set().contains(x)) by {
                assert(owned@.to_set().contains(x) == owned@.contains(x));
            }
            assert(kept@.to_set() =~= self.selected@.to_set().intersect(still_owned@.to_set()));
        }
        self.selected = kept;
        if self.dragging {
            self.preview = id_set(covered);
        }
    }

    /// Applies one pointer control.
    pub fn handle(&mut self, control: ClientControl) -> (r: Option<ClientEffect>)
        requires
            old(self).wf(),
        ensures
            final(self).wf(),
            match control {
                ClientControl::ClickSelect { picked } => {
                    &&& r is None
                    &&& final(self)@ == (ClientView {
                        selected: match picked {
                            Some(id) => Set::empty().insert(id),
                            None => Set::empty(),
                        },
                        preview: Set::empty(),
                        dragging: false,
                        next_sequence: old(self)@.next_sequence,
                    })
                },
                ClientControl::DragSelect { covered } => {
                    &&& r is None
                    &&& final(self)@ == (ClientView {
                        preview: covered@.to_set(),
                        dragging: true,
                        ..old(self)@
                    })
                },
                ClientControl::CommitDrag => {
                    &&& r is None
                    &&& final(self)@ == (if old(self)@.dragging {
                        ClientView {
                            selected: old(self)@.preview,
                            preview: Set::empty(),
                            dragging: false,
                            next_sequence: old(self)@.next_sequence,
                        }
                    } else {
                        old(self)@
                    })
                },
                ClientControl::CancelDrag => {
                    &&& r is None
                    &&& final(self)@ == (ClientView { preview: Set::empty(), dragging: false, ..old(self)@ })
                },
                ClientControl::ClearSelection => {
                    &&& r is None
                    &&& final(self)@ == (if old(self)@.dragging {
                        old(self)@
                    } else {
                        ClientView { selected: Set::empty(), ..old(self)@ }
                    })
                },
                ClientControl::SetDestination { destination } => if old(self)@.dragging
                    || old(self)@.selected.is_empty() {
                    &&& r is None
                    &&& final(self)@ == old(self)@
                } else {
                    &&& r matches Some(ClientEffect::Send(request))
                    &&& request.sequence == old(self)@.next_sequence
                    &&& request.command matches CommandData::SetDestination { destination: d, target_unit_ids }
                    &&& d == destination
                    &&& strictly_increasing(target_unit_ids@)
                    &&& target_unit_ids@.to_set() == old(self)@.selected
                    &&& final(self)@ == (ClientView {
                        next_sequence: if old(self)@.next_sequence == u32::MAX {
                            u32::MAX
                        } else {
                            (old(self)@.next_sequence + 1) as u32
                        },
                        ..old(self)@
                    })
                },
            },
    {
        match control {
            ClientControl::ClickSelect { picked } => {
                self.preview = Vec::new();
                self.dragging = false;
                let mut selected: Vec<u32> = Vec::new();
                match picked {
                    Some(id) => {
                        selected.push(id);
                    },
                    None => {},
                }
                self.selected = selected;
                proof {
                    assert(self@.preview =~= Set::empty());
                    match picked {
                        Some(id) => {
                            assert(self@.selected =~= Set::empty().insert(id));
                        },
                        None => {
                            assert(self@.selected =~= Set::empty());
                        },
                    }
                }
                None
            },
            ClientControl::DragSelect { covered } => {
                self.dragging = true;
                self.preview = id_set(covered.as_slice());
                None
            },
            ClientControl::CommitDrag => {
                if self.dragging {
                    self.dragging = false;
                    let mut taken: Vec<u32> = Vec::new();
                    std::mem::swap(&mut taken, &mut self.preview);
                    self.selected = taken;
                    proof {
                        assert(self@.preview =~= Set::empty());
                    }
                }
                None
            },
            ClientControl::CancelDrag => {
                self.preview = Vec::new();
                self.dragging = false;
                proof {
                    assert(self@.preview =~= Set::empty());
                }
                None
            },
            ClientControl::ClearSelection => {
                if !self.dragging {
                    self.selected = Vec::new();
                    proof {
                        assert(self@.selected =~= Set::empty());
                    }
                }
                None
            },
            ClientControl::SetDestination { destination } => {
                if self.dragging || self.selected.len() == 0 {
                    proof {
                        if self.selected.len() != 0 {
                            assert(self@.selected.contains(self.selected@[0]));
                        } else {
                            assert(self@.selected =~= Set::empty());
                        }
                    }
                    return None;
                }
                proof {
                    assert(self@.selected.contains(self.selected@[0]));
                }
                let sequence = self.next_sequence;
                self.next_sequence = self.next_sequence.saturating_add(1);
                let target_unit_ids = self.selected.clone();
                Some(
                    ClientEffect::Send(
                        CommandRequest { sequence, command: CommandData::SetDestination { destination, target_unit_ids } },
                    ),
                )
            },
        }
    }
}

} // verus!
