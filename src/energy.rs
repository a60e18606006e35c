//! Daily energy totals, integrated from one reading to the next.
use crate::clock::CaptureTime;
use crate::ser::{lemma_ticks_fit, CumulativeSolarData, ValidatedReading};
use vstd::prelude::*;

verus! {

/// The running panel and load energy of the current local day, in ticks.
#[derive(Clone, Copy, Debug, PartialEq, Eq, Structural)]
pub struct EnergyState {
    pub panel_ticks: u128,
    pub load_ticks: u128,
}

/// `a + b`, held at `u128::MAX` where the sum would not fit.
pub open spec fn sat_add(a: int, b: int) -> int {
    if a + b > u128::MAX {
        u128::MAX as int
    } else {
        a + b
    }
}

impl EnergyState {
    /// Totals that start from the given values.
    pub fn new(panel_ticks: u128, load_ticks: u128) -> (r: EnergyState)
        ensures
            r.panel_ticks == panel_ticks,
            r.load_ticks == load_ticks,
    {
        EnergyState { panel_ticks, load_ticks }
    }

    /// The totals after `reading`, which follows a capture at `prev`: both
    /// are reset when the local day changed, then the reading's energy is
    /// added.
    pub open spec fn spec_accumulate(self, prev: CaptureTime, reading: CumulativeSolarData) -> EnergyState {
        let same = prev.spec_same_day(reading.time);
        let panel = if same { self.panel_ticks as int } else { 0 };
        let load = if same { self.load_ticks as int } else { 0 };
        EnergyState {
            panel_ticks: sat_add(panel, reading.spec_panel_ticks()) as u128,
            load_ticks: sat_add(load, reading.spec_load_ticks()) as u128,
        }
    }

    /// Adds the energy of `reading`, captured after an earlier capture at
    /// `prev`. Where the two captures fall on different local days, both totals
    /// start again from zero before this reading's energy is added, so that it
    /// counts towards the new day. A total that would pass `u128::MAX` stays
    /// there.
    pub fn accumulate(&mut self, prev: CaptureTime, reading: &CumulativeSolarData)
        ensures
            *final(self) == old(self).spec_accumulate(prev, *reading),
    {
        if !prev.same_day(&reading.time) {
            self.panel_ticks = 0;
            self.load_ticks = 0;
        }
        self.panel_ticks = self.panel_ticks.saturating_add(reading.panel_watt_s());
        self.load_ticks = self.load_ticks.saturating_add(reading.load_watt_s());
    }
}

/// On one local day with time moving forward, each total grows by exactly
/// power times elapsed time (where the sum fits a u128).
pub proof fn lemma_same_day_increment(
    state: EnergyState,
    prev: CaptureTime,
    now: CaptureTime,
    snapshot: ValidatedReading,
)
    requires
        prev.spec_same_day(now),
        prev.unix_nanos <= now.unix_nanos,
        state.panel_ticks + snapshot.spec_panel_watts() * (now.unix_nanos - prev.unix_nanos)
            <= u128::MAX,
        state.load_ticks + snapshot.spec_load_watts() * (now.unix_nanos - prev.unix_nanos)
            <= u128::MAX,
    ensures
        ({
            let next = state.spec_accumulate(
                prev,
                CumulativeSolarData::spec_from_snapshot(prev, now, snapshot),
            );
            &&& next.panel_ticks == state.panel_ticks + snapshot.spec_panel_watts() * (
            now.unix_nanos - prev.unix_nanos)
            &&& next.load_ticks == state.load_ticks + snapshot.spec_load_watts() * (
            now.unix_nanos - prev.unix_nanos)
        }),
{
}

/// Across a change of local day, the totals hold only the new reading's
/// energy: the earlier totals are dropped before it is added.
pub proof fn lemma_day_rollover(
    state: EnergyState,
    prev: CaptureTime,
    now: CaptureTime,
    snapshot: ValidatedReading,
)
    requires
        !prev.spec_same_day(now),
    ensures
        ({
            let reading = CumulativeSolarData::spec_from_snapshot(prev, now, snapshot);
            let next = state.spec_accumulate(prev, reading);
            &&& next.panel_ticks == reading.spec_panel_ticks()
            &&& next.load_ticks == reading.spec_load_ticks()
        }),
{
    lemma_ticks_fit(CumulativeSolarData::spec_from_snapshot(prev, now, snapshot));
}

/// A clock that went backwards within a day adds nothing: both totals stay
/// as they were, so neither decreases.
pub proof fn lemma_clock_skew(
    state: EnergyState,
    prev: CaptureTime,
    now: CaptureTime,
    snapshot: ValidatedReading,
)
    requires
        prev.spec_same_day(now),
        now.unix_nanos < prev.unix_nanos,
    ensures
        ({
            let next = state.spec_accumulate(
                prev,
                CumulativeSolarData::spec_from_snapshot(prev, now, snapshot),
            );
            &&& next == state
        }),
{
    lemma_ticks_fit(CumulativeSolarData::spec_from_snapshot(prev, now, snapshot));
}

} // verus!
