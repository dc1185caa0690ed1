//! The shared clock of all duty services: wall-clock time mapped to slot numbers.
use vstd::prelude::*;
use vstd::arithmetic::div_mod::{lemma_div_by_multiple, lemma_div_is_ordered};
use vstd::arithmetic::mul::lemma_mul_upper_bound;

use crate::constants::ProtocolConstants;

verus! {

/// A clock derived from the chain's genesis: slot `genesis_slot` starts at `genesis_time`
/// (seconds since the Unix epoch) and every slot lasts `slot_duration_ms` milliseconds.
#[derive(Clone, Copy, Debug, PartialEq, Eq)]
pub struct TimeSource {
    pub genesis_slot: u64,
    pub genesis_time: u64,
    pub slot_duration_ms: u64,
}

/// Clamps a slot number to the largest one that a `u64` holds.
pub open spec fn saturate(x: int) -> u64 {
    if x > u64::MAX {
        u64::MAX
    } else {
        x as u64
    }
}

/// Order on "slot or not yet started": a time before genesis comes before every slot.
pub open spec fn slot_le(a: Option<u64>, b: Option<u64>) -> bool {
    match (a, b) {
        (None, _) => true,
        (Some(_), None) => false,
        (Some(x), Some(y)) => x <= y,
    }
}

impl TimeSource {
    pub open spec fn wf(&self) -> bool {
        self.slot_duration_ms > 0
    }

    /// Genesis as milliseconds since the Unix epoch.
    pub open spec fn genesis_millis(&self) -> int {
        self.genesis_time * 1000
    }

    /// The slot in progress at `now_ms` milliseconds since the Unix epoch, or `None`
    /// before genesis.
    pub open spec fn slot_at_millis(&self, now_ms: int) -> Option<u64> {
        if now_ms < self.genesis_millis() {
            None
        } else {
            Some(saturate(self.genesis_slot + (now_ms - self.genesis_millis()) / (self.slot_duration_ms as int)))
        }
    }

    /// The slot in progress at `now` seconds since the Unix epoch, or `None` before genesis.
    pub open spec fn slot_at(&self, now: int) -> Option<u64> {
        self.slot_at_millis(now * 1000)
    }

    /// The instant, in milliseconds since the Unix epoch, at which `slot` starts; `None`
    /// for a slot before genesis.
    pub open spec fn slot_start_at(&self, slot: u64) -> Option<int> {
        if slot < self.genesis_slot {
            None
        } else {
            Some(self.genesis_millis() + (slot - self.genesis_slot) * (self.slot_duration_ms as int))
        }
    }

    /// Builds the clock; `None` when the slot duration is zero, which defines no slots.
    pub fn new(genesis_slot: u64, genesis_time: u64, slot_duration_ms: u64) -> (r: Option<Self>)
        ensures
            r is None <==> slot_duration_ms == 0,
            r matches Some(t) ==> {
                &&& t.wf()
                &&& t.genesis_slot == genesis_slot
                &&& t.genesis_time == genesis_time
                &&& t.slot_duration_ms == slot_duration_ms
            },
    {
        if slot_duration_ms == 0 {
            None
        } else {
            Some(TimeSource { genesis_slot, genesis_time, slot_duration_ms })
        }
    }

    /// Builds the clock from the genesis slot and slot duration of `constants` and the
    /// genesis time reported by the beacon node.
    pub fn from_constants(constants: &ProtocolConstants, genesis_time: u64) -> (r: Option<Self>)
        ensures
            r is None <==> constants.milliseconds_per_slot == 0,
            r matches Some(t) ==> {
                &&& t.wf()
                &&& t.genesis_slot == constants.genesis_slot
                &&& t.genesis_time == genesis_time
                &&& t.slot_duration_ms == constants.milliseconds_per_slot
            },
    {
        Self::new(constants.genesis_slot, genesis_time, constants.milliseconds_per_slot)
    }

    /// The slot in progress at `now_ms` milliseconds since the Unix epoch.
    pub fn slot_of_millis(&self, now_ms: u128) -> (r: Option<u64>)
        requires
            self.wf(),
        ensures
            r == self.slot_at_millis(now_ms as int),
    {
        let genesis_ms: u128 = self.genesis_time as u128 * 1000;
        if now_ms < genesis_ms {
            None
        } else {
            let elapsed: u128 = (now_ms - genesis_ms) / (self.slot_duration_ms as u128);
            if elapsed > u64::MAX as u128 {
                Some(u64::MAX)
            } else {
                Some(self.genesis_slot.saturating_add(elapsed as u64))
            }
        }
    }

    /// The instant, in milliseconds since the Unix epoch, at which `slot` starts.
    pub fn start_of(&self, slot: u64) -> (r: Option<u128>)
        ensures
            r matches Some(ms) ==> self.slot_start_at(slot) == Some(ms as int),
            r is None ==> self.slot_start_at(slot) is None || self.slot_start_at(slot)->0 > u128::MAX,
    {
        if slot < self.genesis_slot {
            None
        } else {
            let n: u64 = slot - self.genesis_slot;
            proof {
                lemma_mul_upper_bound(n as int, u64::MAX as int, self.slot_duration_ms as int, u64::MAX as int);
                assert(u64::MAX as int * u64::MAX as int <= u128::MAX) by (nonlinear_arith);
            }
            let offset: u128 = n as u128 * self.slot_duration_ms as u128;
            let genesis_ms: u128 = self.genesis_time as u128 * 1000;
            genesis_ms.checked_add(offset)
        }
    }

    /// The slot in progress at `now` seconds since the Unix epoch.
    pub fn slot_for(&self, now: u64) -> (r: Option<u64>)
        requires
            self.wf(),
        ensures
            r == self.slot_at(now as int),
    {
        self.slot_of_millis(now as u128 * 1000)
    }
}

/// The slot of a later time is never smaller than the slot of an earlier one.
pub proof fn lemma_slot_monotonic(t: TimeSource, earlier: int, later: int)
    requires
        t.wf(),
        earlier <= later,
    ensures
        slot_le(t.slot_at(earlier), t.slot_at(later)),
{
    let g = t.genesis_millis();
    if earlier * 1000 >= g {
        lemma_div_is_ordered(earlier * 1000 - g, later * 1000 - g, t.slot_duration_ms as int);
    }
}

/// The start of every slot from genesis on lies in that same slot.
pub proof fn lemma_slot_start_round_trip(t: TimeSource, slot: u64)
    requires
        t.wf(),
        slot >= t.genesis_slot,
    ensures
        t.slot_start_at(slot) matches Some(ms) && t.slot_at_millis(ms) == Some(slot),
{
    lemma_div_by_multiple((slot - t.genesis_slot) as int, t.slot_duration_ms as int);
    assert(0 <= (slot - t.genesis_slot) * (t.slot_duration_ms as int)) by (nonlinear_arith)
        requires slot >= t.genesis_slot;
}

/// Genesis time falls in the genesis slot.
pub proof fn lemma_slot_at_genesis(t: TimeSource)
    requires
        t.wf(),
    ensures
        t.slot_at(t.genesis_time as int) == Some(t.genesis_slot),
{
    assert(0int / (t.slot_duration_ms as int) == 0) by (nonlinear_arith)
        requires t.slot_duration_ms > 0;
}

} // verus!
