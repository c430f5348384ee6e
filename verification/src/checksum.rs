//! The server's record of its own state hashes and each client's ledger of
//! checksum reports: which ticks it has reported, which reports wait for
//! the server to reach their tick, and how each report compares.

use crate::objective::SIMULATION_HZ;
use crate::server::{bytes_equal, ChecksumResult};
use crate::tick::{saturating_sub_u64, Tick};
use crate::world_state::copy_bytes;
use vstd::prelude::*;

verus! {

/// How many seconds of state hashes the server keeps.
pub const HASH_HISTORY_SECONDS: u64 = 10;

/// How many early reports a client may have waiting.
pub const MAX_PENDING_CHECKSUMS: usize = 16;

/// The hash recorded for `tick`: the latest entry with that tick.
pub open spec fn lookup(s: Seq<(u64, [u8; 32])>, tick: u64) -> Option<[u8; 32]>
    decreases s.len(),
{
    if s.len() == 0 {
        None
    } else if s.last().0 == tick {
        Some(s.last().1)
    } else {
        lookup(s.drop_last(), tick)
    }
}

/// The entries that survive recording `tick`: those inside the window that
/// starts at `oldest`, other than an earlier entry for `tick` itself.
pub open spec fn retain_spec(s: Seq<(u64, [u8; 32])>, oldest: u64, tick: u64) -> Seq<(u64, [u8; 32])>
    decreases s.len(),
{
    if s.len() == 0 {
        seq![]
    } else {
        let rest = retain_spec(s.drop_last(), oldest, tick);
        if s.last().0 >= oldest && s.last().0 != tick {
            rest.push(s.last())
        } else {
            rest
        }
    }
}

/// The first tick still inside the window once `tick` is recorded.
pub open spec fn window_start(tick: u64) -> u64 {
    saturating_sub_u64(tick, (SIMULATION_HZ as u64 * HASH_HISTORY_SECONDS) as u64)
}

/// The history after recording `hash` for `tick`.
pub open spec fn record_spec(s: Seq<(u64, [u8; 32])>, tick: u64, hash: [u8; 32]) -> Seq<(u64, [u8; 32])> {
    retain_spec(s, window_start(tick), tick).push((tick, hash))
}

/// The server's state hashes of the last ten seconds, by tick.
pub struct StateHashHistory {
    entries: Vec<(u64, [u8; 32])>,
}

impl View for StateHashHistory {
    type V = Seq<(u64, [u8; 32])>;

    closed spec fn view(&self) -> Seq<(u64, [u8; 32])> {
        self.entries@
    }
}

proof fn lemma_retain_lookup(s: Seq<(u64, [u8; 32])>, oldest: u64, tick: u64, k: u64)
    ensures
        (k < oldest || k == tick) ==> lookup(retain_spec(s, oldest, tick), k) is None,
        (k >= oldest && k != tick) ==> lookup(retain_spec(s, oldest, tick), k) == lookup(s, k),
    decreases s.len(),
{
    if s.len() > 0 {
        lemma_retain_lookup(s.drop_last(), oldest, tick, k);
        let rest = retain_spec(s.drop_last(), oldest, tick);
        assert(rest.push(s.last()).drop_last() =~= rest);
    }
}

/// Recording a hash makes it the one found for its tick; ticks older than
/// the window are forgotten, and every other tick keeps its hash.
pub proof fn lemma_record_then_lookup(s: Seq<(u64, [u8; 32])>, tick: u64, hash: [u8; 32], k: u64)
    ensures
        lookup(record_spec(s, tick, hash), tick) == Some(hash),
        k < window_start(tick) ==> lookup(record_spec(s, tick, hash), k) is None,
        k >= window_start(tick) && k != tick ==> lookup(record_spec(s, tick, hash), k) == lookup(s, k),
{
    let r = retain_spec(s, window_start(tick), tick);
    assert(r.push((tick, hash)).drop_last() =~= r);
    lemma_retain_lookup(s, window_start(tick), tick, k);
}

impl StateHashHistory {
    pub fn new() -> (h: StateHashHistory)
        ensures
            h@ == Seq::<(u64, [u8; 32])>::empty(),
    {
        StateHashHistory { entries: Vec::new() }
    }

    /// The hash recorded for `tick`, if it is still in the window.
    pub fn get(&self, tick: Tick) -> (r: Option<[u8; 32]>)
        ensures
            r == lookup(self@, tick.0),
    {
        let mut i: usize = self.entries.len();
        proof {
            assert(self.entries@.subrange(0, i as int) =~= self.entries@);
        }
        while i > 0
            invariant
                i <= self.entries@.len(),
                lookup(self.entries@, tick.0) == lookup(self.entries@.subrange(0, i as int), tick.0),
            decreases i,
        {
            let entry = self.entries[i - 1];
            proof {
                let pre = self.entries@.subrange(0, i as int);
                assert(pre.drop_last() =~= self.entries@.subrange(0, i - 1));
                assert(pre.last() == entry);
            }
            if entry.0 == tick.0 {
                return Some(entry.1);
            }
            i = i - 1;
        }
        None
    }

    /// Records the hash of a completed tick and forgets the hashes older
    /// than ten seconds before it.
    pub fn record(&mut self, tick: Tick, hash: [u8; 32])
        ensures
            final(self)@ == record_spec(old(self)@, tick.0, hash),
    {
        let oldest = tick.decrement(Tick(SIMULATION_HZ as u64 * HASH_HISTORY_SECONDS)).0;
        let mut kept: Vec<(u64, [u8; 32])> = Vec::new();
        let mut i: usize = 0;
        while i < self.entries.len()
            invariant
                i <= self.entries@.len(),
                oldest == window_start(tick.0),
                kept@ == retain_spec(self.entries@.subrange(0, i as int), oldest, tick.0),
            decreases self.entries.len() - i,
        {
            let entry = self.entries[i];
            if entry.0 >= oldest && entry.0 != tick.0 {
                kept.push(entry);
            }
            proof {
                let pre = self.entries@.subrange(0, i + 1);
                assert(pre.drop_last() =~= self.entries@.subrange(0, i as int));
                assert(pre.last() == entry);
            }
            i = i + 1;
        }
        proof {
            assert(self.entries@.subrange(0, self.entries@.len() as int) =~= self.entries@);
        }
        kept.push((tick.0, hash));
        self.entries = kept;
    }

    /// Forgets every recorded hash (after the match resets).
    pub fn clear(&mut self)
        ensures
            final(self)@ == Seq::<(u64, [u8; 32])>::empty(),
    {
        self.entries = Vec::new();
    }
}

/// The model of a [`ChecksumResult`].
pub enum ChecksumResultView {
    Match { tick: Tick },
    Divergence { tick: Tick, server_hash: [u8; 32], client_hash: Seq<u8> },
    Duplicate { tick: Tick },
    Late { tick: Tick },
    UnknownTick { tick: Tick },
    Malformed { tick: Tick, length: usize },
}

impl View for ChecksumResult {
    type V = ChecksumResultView;

    open spec fn view(&self) -> ChecksumResultView {
        match self {
            ChecksumResult::Match { tick } => ChecksumResultView::Match { tick: *tick },
            ChecksumResult::Divergence { tick, server_hash, client_hash } => ChecksumResultView::Divergence {
                tick: *tick,
                server_hash: *server_hash,
                client_hash: client_hash@,
            },
            ChecksumResult::Duplicate { tick } => ChecksumResultView::Duplicate { tick: *tick },
            ChecksumResult::Late { tick } => ChecksumResultView::Late { tick: *tick },
            ChecksumResult::UnknownTick { tick } => ChecksumResultView::UnknownTick { tick: *tick },
            ChecksumResult::Malformed { tick, length } => ChecksumResultView::Malformed {
                tick: *tick,
                length: *length,
            },
        }
    }
}

/// A report that arrived before the server reached its tick.
pub struct PendingChecksum {
    pub tick: Tick,
    pub hash: Vec<u8>,
}

/// One client's checksum reports: the ticks it has had judged, and its
/// early reports in arrival order.
pub struct ChecksumLedger {
    seen: Vec<u64>,
    pending: Vec<PendingChecksum>,
}

/// The model of a [`ChecksumLedger`].
pub struct LedgerView {
    pub seen: Seq<u64>,
    pub pending: Seq<(Tick, Seq<u8>)>,
}

pub open spec fn pending_views(s: Seq<PendingChecksum>) -> Seq<(Tick, Seq<u8>)> {
    s.map_values(|p: PendingChecksum| (p.tick, p.hash@))
}

impl View for ChecksumLedger {
    type V = LedgerView;

    closed spec fn view(&self) -> LedgerView {
        LedgerView { seen: self.seen@, pending: pending_views(self.pending@) }
    }
}

/// The last `MAX_PENDING_CHECKSUMS` early reports.
pub open spec fn cap_pending(s: Seq<(Tick, Seq<u8>)>) -> Seq<(Tick, Seq<u8>)> {
    if s.len() > MAX_PENDING_CHECKSUMS {
        s.skip(s.len() - MAX_PENDING_CHECKSUMS)
    } else {
        s
    }
}

/// The early reports that settling keeps: those the history cannot answer
/// yet and whose tick lies after the completed tick.
pub open spec fn settle_kept(
    p: Seq<(Tick, Seq<u8>)>,
    history: Seq<(u64, [u8; 32])>,
    completed: Tick,
) -> Seq<(Tick, Seq<u8>)>
    decreases p.len(),
{
    if p.len() == 0 {
        seq![]
    } else {
        let rest = settle_kept(p.drop_last(), history, completed);
        let e = p.last();
        if lookup(history, e.0.0) is None && e.0.0 > completed.0 {
            rest.push(e)
        } else {
            rest
        }
    }
}

/// What settling reports: a divergence for each answered report whose hash
/// differs, and lateness for each unanswerable one at or before the completed tick.
pub open spec fn settle_reports(
    p: Seq<(Tick, Seq<u8>)>,
    history: Seq<(u64, [u8; 32])>,
    completed: Tick,
) -> Seq<ChecksumResultView>
    decreases p.len(),
{
    if p.len() == 0 {
        seq![]
    } else {
        let rest = settle_reports(p.drop_last(), history, completed);
        let e = p.last();
        match lookup(history, e.0.0) {
            Some(h) => if h@ != e.1 {
                rest.push(ChecksumResultView::Divergence { tick: e.0, server_hash: h, client_hash: e.1 })
            } else {
                rest
            },
            None => if e.0.0 > completed.0 {
                rest
            } else {
                rest.push(ChecksumResultView::Late { tick: e.0 })
            },
        }
    }
}

fn seen_contains(seen: &Vec<u64>, tick: u64) -> (r: bool)
    ensures
        r == seen@.contains(tick),
{
    let mut i: usize = 0;
    while i < seen.len()
        invariant
            i <= seen@.len(),
            forall|k: int| 0 <= k < i ==> seen@[k] != tick,
        decreases seen.len() - i,
    {
        if seen[i] == tick {
            proof {
                assert(seen@[i as int] == tick);
            }
            return true;
        }
        i = i + 1;
    }
    false
}

impl ChecksumLedger {
    pub fn new() -> (l: ChecksumLedger)
        ensures
            l@.seen == Seq::<u64>::empty(),
            l@.pending == Seq::<(Tick, Seq<u8>)>::empty(),
    {
        let l = ChecksumLedger { seen: Vec::new(), pending: Vec::new() };
        proof {
            assert(pending_views(l.pending@) =~= Seq::<(Tick, Seq<u8>)>::empty());
        }
        l
    }

    /// Judges a client's report of its hash for `tick` while the server is
    /// at `server_tick`. A report of the wrong length is malformed; a tick
    /// judged before is a duplicate; a tick the history holds is compared;
    /// a tick off the once-per-second cadence is unknown; a future tick
    /// waits (keeping the latest sixteen); any other report is dropped.
    pub fn report(
        &mut self,
        tick: Tick,
        hash: Vec<u8>,
        history: &StateHashHistory,
        server_tick: Tick,
    ) -> (r: Option<ChecksumResult>)
        ensures
            hash@.len() != 32 ==> r == Some(ChecksumResult::Malformed { tick, length: hash.len() })
                && final(self)@ == old(self)@,
            hash@.len() == 32 && old(self)@.seen.contains(tick.0) ==> r == Some(
                ChecksumResult::Duplicate { tick },
            ) && final(self)@ == old(self)@,
            hash@.len() == 32 && !old(self)@.seen.contains(tick.0) && lookup(history@, tick.0)
                is Some ==> ({
                let h = lookup(history@, tick.0)->0;
                &&& final(self)@.seen == old(self)@.seen.push(tick.0)
                &&& final(self)@.pending == old(self)@.pending
                &&& r matches Some(res) && res@ == if h@ == hash@ {
                    ChecksumResultView::Match { tick }
                } else {
                    ChecksumResultView::Divergence { tick, server_hash: h, client_hash: hash@ }
                }
            }),
            hash@.len() == 32 && !old(self)@.seen.contains(tick.0) && lookup(history@, tick.0)
                is None && tick.0 % (SIMULATION_HZ as u64) != 0 ==> r == Some(
                ChecksumResult::UnknownTick { tick },
            ) && final(self)@.seen == old(self)@.seen.push(tick.0) && final(self)@.pending == old(
                self,
            )@.pending,
            hash@.len() == 32 && !old(self)@.seen.contains(tick.0) && lookup(history@, tick.0)
                is None && tick.0 % (SIMULATION_HZ as u64) == 0 && tick.0 > server_tick.0 ==> r is None
                && final(self)@.seen == old(self)@.seen && final(self)@.pending == cap_pending(
                old(self)@.pending.push((tick, hash@)),
            ),
            hash@.len() == 32 && !old(self)@.seen.contains(tick.0) && lookup(history@, tick.0)
                is None && tick.0 % (SIMULATION_HZ as u64) == 0 && tick.0 <= server_tick.0 ==> r
                is None && final(self)@ == old(self)@,
    {
        if hash.len() != 32 {
            return Some(ChecksumResult::Malformed { tick, length: hash.len() });
        }
        if seen_contains(&self.seen, tick.0) {
            return Some(ChecksumResult::Duplicate { tick });
        }
        match history.get(tick) {
            Some(server_hash) => {
                self.seen.push(tick.0);
                if bytes_equal(server_hash.as_slice(), hash.as_slice()) {
                    Some(ChecksumResult::Match { tick })
                } else {
                    Some(ChecksumResult::Divergence { tick, server_hash, client_hash: hash })
                }
            },
            None => {
                if tick.0 % (SIMULATION_HZ as u64) != 0 {
                    self.seen.push(tick.0);
                    Some(ChecksumResult::UnknownTick { tick })
                } else if tick.0 > server_tick.0 {
                    let ghost before = pending_views(self.pending@);
                    let ghost hv = hash@;
                    self.pending.push(PendingChecksum { tick, hash });
                    proof {
                        assert(pending_views(self.pending@) =~= before.push((tick, hv)));
                    }
                    let ghost full = pending_views(self.pending@);
                    let ghost mut k: int = 0;
                    proof {
                        assert(full.skip(0) =~= full);
                    }
                    while self.pending.len() > MAX_PENDING_CHECKSUMS
                        invariant
                            0 <= k <= full.len(),
                            self.seen@ == old(self).seen@,
                            full == before.push((tick, hv)),
                            pending_views(self.pending@) == full.skip(k),
                            k == 0 || full.len() - k >= MAX_PENDING_CHECKSUMS,
                        decreases self.pending.len(),
                    {
                        let ghost prev = self.pending@;
                        self.pending.remove(0);
                        proof {
                            assert(self.pending@ =~= prev.subrange(1, prev.len() as int));
                            assert(pending_views(prev).len() == prev.len());
                            assert forall|j: int| 0 <= j < self.pending@.len() implies #[trigger] pending_views(
                                self.pending@,
                            )[j] == full.skip(k + 1)[j] by {
                                assert(pending_views(self.pending@)[j] == pending_views(prev)[j + 1]);
                                assert(pending_views(prev)[j + 1] == full.skip(k)[j + 1]);
                            }
                            assert(pending_views(self.pending@) =~= full.skip(k + 1));
                            k = k + 1;
                        }
                    }
                    proof {
                        if full.len() > MAX_PENDING_CHECKSUMS {
                            assert(k == full.len() - MAX_PENDING_CHECKSUMS);
                        } else {
                            assert(k == 0);
                            assert(full.skip(0) =~= full);
                        }
                        assert(pending_views(self.pending@) == cap_pending(full));
                    }
                    None
                } else {
                    None
                }
            },
        }
    }

    /// Compares the early reports with the history once `completed` has
    /// been recorded: answered reports leave (reporting divergences),
    /// future ones keep waiting, and the rest are reported late.
    pub fn settle(&mut self, history: &StateHashHistory, completed: Tick) -> (r: Vec<ChecksumResult>)
        ensures
            final(self)@.seen == old(self)@.seen,
            final(self)@.pending == settle_kept(old(self)@.pending, history@, completed),
            r@.map_values(|x: ChecksumResult| x@) == settle_reports(
                old(self)@.pending,
                history@,
                completed,
            ),
    {
        let ghost p = pending_views(self.pending@);
        let mut kept: Vec<PendingChecksum> = Vec::new();
        let mut results: Vec<ChecksumResult> = Vec::new();
        let mut i: usize = 0;
        while i < self.pending.len()
            invariant
                i <= self.pending@.len(),
                p == pending_views(self.pending@),
                pending_views(kept@) == settle_kept(p.subrange(0, i as int), history@, completed),
                results@.map_values(|x: ChecksumResult| x@) == settle_reports(
                    p.subrange(0, i as int),
                    history@,
                    completed,
                ),
            decreases self.pending.len() - i,
        {
            let tick = self.pending[i].tick;
            let ghost kv = pending_views(kept@);
            let ghost rv = results@.map_values(|x: ChecksumResult| x@);
            match history.get(tick) {
                Some(server_hash) => {
                    if !bytes_equal(server_hash.as_slice(), self.pending[i].hash.as_slice()) {
                        let client_hash = copy_bytes(&self.pending[i].hash);
                        results.push(ChecksumResult::Divergence { tick, server_hash, client_hash });
                        proof {
                            assert(results@.map_values(|x: ChecksumResult| x@) =~= rv.push(
                                ChecksumResultView::Divergence {
                                    tick,
                                    server_hash,
                                    client_hash: p[i as int].1,
                                },
                            ));
                        }
                    }
                },
                None => {
                    if tick.0 > completed.0 {
                        let hash = copy_bytes(&self.pending[i].hash);
                        kept.push(PendingChecksum { tick, hash });
                        proof {
                            assert(pending_views(kept@) =~= kv.push(p[i as int]));
                        }
                    } else {
                        results.push(ChecksumResult::Late { tick });
                        proof {
                            assert(results@.map_values(|x: ChecksumResult| x@) =~= rv.push(
                                ChecksumResultView::Late { tick },
                            ));
                        }
                    }
                },
            }
            proof {
                let pre = p.subrange(0, i + 1);
                assert(pre.drop_last() =~= p.subrange(0, i as int));
                assert(pre.last() == p[i as int]);
            }
            i = i + 1;
        }
        proof {
            assert(p.subrange(0, p.len() as int) =~= p);
        }
        self.pending = kept;
        results
    }
}

} // verus!
