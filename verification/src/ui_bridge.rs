//! Health of the UI bridge: periodic heartbeats that the UI must acknowledge.
//!
//! Times are milliseconds of a monotonic clock chosen by the host.

use crate::ui_protocol::BridgeId;
use vstd::prelude::*;

verus! {

#[derive(Clone, Copy, Debug, PartialEq, Eq, Structural)]
pub struct BridgeHealthConfig {
    /// Milliseconds between heartbeats.
    pub interval_ms: u64,
    /// How many unanswered heartbeats fault the bridge.
    pub missed_ack_threshold: u8,
}

impl Default for BridgeHealthConfig {
    fn default() -> (c: BridgeHealthConfig)
        ensures
            c == (BridgeHealthConfig { interval_ms: 1000, missed_ack_threshold: 3 }),
    {
        BridgeHealthConfig { interval_ms: 1000, missed_ack_threshold: 3 }
    }
}

#[derive(Debug)]
pub struct UiBridge {
    bridge_id: Option<BridgeId>,
    next_heartbeat: Option<u64>,
    awaiting: Option<u64>,
    missed: u8,
    config: BridgeHealthConfig,
    faulted: bool,
}

/// The mathematical model of a [`UiBridge`].
pub struct BridgeView {
    pub bridge_id: Option<Seq<char>>,
    pub next_heartbeat: Option<u64>,
    pub awaiting: Option<u64>,
    pub missed: u8,
    pub config: BridgeHealthConfig,
    pub faulted: bool,
}

impl View for UiBridge {
    type V = BridgeView;

    closed spec fn view(&self) -> BridgeView {
        BridgeView {
            bridge_id: match self.bridge_id {
                Some(id) => Some(id@),
                None => None,
            },
            next_heartbeat: self.next_heartbeat,
            awaiting: self.awaiting,
            missed: self.missed,
            config: self.config,
            faulted: self.faulted,
        }
    }
}

/// Whether a heartbeat is due at `now`.
pub open spec fn heartbeat_due(b: BridgeView, now: u64) -> bool {
    !b.faulted && match b.next_heartbeat {
        Some(deadline) => now >= deadline,
        None => false,
    }
}

/// The heartbeat step at `now`: the sequence number to send, if any, and the bridge after it.
pub open spec fn due_spec(b: BridgeView, now: u64) -> (Option<u64>, BridgeView) {
    if !heartbeat_due(b, now) {
        (None, b)
    } else {
        let missed = if b.awaiting is Some {
            if b.missed == u8::MAX { u8::MAX } else { (b.missed + 1) as u8 }
        } else {
            b.missed
        };
        if missed >= b.config.missed_ack_threshold {
            (None, BridgeView { missed, faulted: true, ..b })
        } else {
            let sequence: u64 = match b.awaiting {
                Some(s) => if s == u64::MAX { u64::MAX } else { (s + 1) as u64 },
                None => 1,
            };
            (
                Some(sequence),
                BridgeView {
                    missed,
                    awaiting: Some(sequence),
                    next_heartbeat: Some((now + b.config.interval_ms) as u64),
                    ..b
                },
            )
        }
    }
}

impl UiBridge {
    pub fn new(config: BridgeHealthConfig) -> (b: UiBridge)
        ensures
            b@ == (BridgeView {
                bridge_id: None,
                next_heartbeat: None,
                awaiting: None,
                missed: 0,
                config,
                faulted: false,
            }),
    {
        UiBridge {
            bridge_id: None,
            next_heartbeat: None,
            awaiting: None,
            missed: 0,
            config,
            faulted: false,
        }
    }

    /// The UI announced itself: heartbeats start one interval from `now`.
    pub fn ready(&mut self, bridge_id: BridgeId, now: u64)
        requires
            now + old(self)@.config.interval_ms <= u64::MAX,
        ensures
            final(self)@ == (BridgeView {
                bridge_id: Some(bridge_id@),
                next_heartbeat: Some((now + old(self)@.config.interval_ms) as u64),
                awaiting: None,
                missed: 0,
                faulted: false,
                config: old(self)@.config,
            }),
    {
        self.bridge_id = Some(bridge_id);
        self.next_heartbeat = Some(now + self.config.interval_ms);
        self.awaiting = None;
        self.missed = 0;
        self.faulted = false;
    }

    pub fn bridge_id(&self) -> (r: Option<&BridgeId>)
        ensures
            match r {
                Some(id) => self@.bridge_id == Some(id@),
                None => self@.bridge_id is None,
            },
    {
        match &self.bridge_id {
            Some(id) => Some(id),
            None => None,
        }
    }

    /// Messages are accepted from the ready bridge only, and never once it faulted.
    pub fn accepts(&self, bridge_id: &BridgeId) -> (r: bool)
        ensures
            r == (!self@.faulted && self@.bridge_id == Some(bridge_id@)),
    {
        if self.faulted {
            return false;
        }
        match &self.bridge_id {
            Some(id) => crate::text::str_eq(id.as_str(), bridge_id.as_str()),
            None => false,
        }
    }

    /// Sends the next heartbeat when one is due. An unanswered previous
    /// heartbeat counts as missed; reaching the threshold faults the bridge.
    pub fn due(&mut self, now: u64) -> (r: Option<u64>)
        requires
            heartbeat_due(old(self)@, now) ==> now + old(self)@.config.interval_ms <= u64::MAX,
        ensures
            (r, final(self)@) == due_spec(old(self)@, now),
    {
        let is_due = match self.next_heartbeat {
            Some(deadline) => now >= deadline,
            None => false,
        };
        if !is_due || self.faulted {
            return None;
        }
        if self.awaiting.is_some() {
            self.missed = self.missed.saturating_add(1);
        }
        if self.missed >= self.config.missed_ack_threshold {
            self.faulted = true;
            return None;
        }
        let sequence = match self.awaiting {
            Some(s) => s.saturating_add(1),
            None => 1,
        };
        self.awaiting = Some(sequence);
        self.next_heartbeat = Some(now + self.config.interval_ms);
        Some(sequence)
    }

    /// The UI acknowledged heartbeat `sequence`; only the awaited one counts.
    pub fn acknowledge(&mut self, bridge_id: &BridgeId, sequence: u64) -> (r: bool)
        ensures
            r == (!old(self)@.faulted && old(self)@.bridge_id == Some(bridge_id@)
                && old(self)@.awaiting == Some(sequence)),
            r ==> final(self)@ == (BridgeView { awaiting: None, missed: 0, ..old(self)@ }),
            !r ==> final(self)@ == old(self)@,
    {
        if !self.accepts(bridge_id) || self.awaiting != Some(sequence) {
            return false;
        }
        self.awaiting = None;
        self.missed = 0;
        true
    }

    pub fn failed(&self) -> (r: bool)
        ensures
            r == self@.faulted,
    {
        self.faulted
    }

    pub fn next_deadline(&self) -> (r: Option<u64>)
        ensures
            r == self@.next_heartbeat,
    {
        self.next_heartbeat
    }
}

/// A faulted bridge stays faulted and silent until the UI announces itself again.
pub proof fn lemma_fault_is_absorbing(b: BridgeView, now: u64)
    requires
        b.faulted,
    ensures
        due_spec(b, now) == (None::<u64>, b),
{
}

/// With a threshold of `k`, the heartbeat after `k` unanswered ones faults the bridge.
pub proof fn lemma_missed_heartbeats_fault(b: BridgeView, now: u64)
    requires
        heartbeat_due(b, now),
        b.awaiting is Some,
        b.missed < u8::MAX,
        b.missed + 1 >= b.config.missed_ack_threshold,
    ensures
        due_spec(b, now).0 is None,
        due_spec(b, now).1.faulted,
{
}

} // verus!
