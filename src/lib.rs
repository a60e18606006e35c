//! Measurement-and-accumulation core of a solar charge-controller monitor.
//!
//! All quantities are fixed-point integers: voltages and currents in
//! hundredths, power in ten-thousandths of a watt, energy in ticks (one tick is
//! a ten-thousandth of a watt held for one nanosecond), battery charge in
//! tenths of a percent.
pub mod clock;
pub mod energy;
pub mod ser;

use crate::clock::CaptureTime;
use crate::energy::EnergyState;
use crate::ser::{ConvertError, CumulativeSolarData, SolarData};
use vstd::prelude::*;

verus! {

/// Calibration of a single cell: (voltage in microvolts, charge in tenths of a
/// percent), strictly increasing in voltage.
pub open spec fn percent_table() -> Seq<(int, int)> {
    seq![
        (3_000_000, 0),
        (3_100_000, 8),
        (3_200_000, 12),
        (3_300_000, 20),
        (3_400_000, 40),
        (3_500_000, 120),
        (3_600_000, 200),
        (3_700_000, 330),
        (3_800_000, 590),
        (3_900_000, 730),
        (4_000_000, 850),
        (4_100_000, 960),
        (4_200_000, 1000),
        (4_250_000, 1050),
        (4_300_000, 1100),
    ]
}

/// Number of breakpoints in the calibration table.
pub const BREAKPOINTS: usize = 15;

/// Breakpoint `i` of the calibration table.
fn breakpoint(i: usize) -> (r: (u32, i32))
    requires
        i < BREAKPOINTS,
    ensures
        r.0 == percent_table()[i as int].0,
        r.1 == percent_table()[i as int].1,
{
    if i == 0 {
        (3_000_000, 0)
    } else if i == 1 {
        (3_100_000, 8)
    } else if i == 2 {
        (3_200_000, 12)
    } else if i == 3 {
        (3_300_000, 20)
    } else if i == 4 {
        (3_400_000, 40)
    } else if i == 5 {
        (3_500_000, 120)
    } else if i == 6 {
        (3_600_000, 200)
    } else if i == 7 {
        (3_700_000, 330)
    } else if i == 8 {
        (3_800_000, 590)
    } else if i == 9 {
        (3_900_000, 730)
    } else if i == 10 {
        (4_000_000, 850)
    } else if i == 11 {
        (4_100_000, 960)
    } else if i == 12 {
        (4_200_000, 1000)
    } else if i == 13 {
        (4_250_000, 1050)
    } else {
        (4_300_000, 1100)
    }
}

/// Neighbouring breakpoints are at least 50 mV apart and rise by at most
/// 26 percentage points.
proof fn lemma_pair_shape(i: int)
    requires
        0 <= i < BREAKPOINTS - 1,
    ensures
        3_000_000 <= percent_table()[i].0,
        percent_table()[i].0 + 50_000 <= percent_table()[i + 1].0,
        percent_table()[i + 1].0 <= 4_300_000,
        0 <= percent_table()[i].1 <= percent_table()[i + 1].1,
        percent_table()[i + 1].1 <= percent_table()[i].1 + 260,
        percent_table()[i + 1].1 <= 1100,
{
}

/// Index of the first neighbouring pair, from `i` on, whose upper voltage is at
/// least `v`.
pub open spec fn first_pair_from(v: int, i: int) -> Option<int>
    decreases BREAKPOINTS - 1 - i,
{
    if i < 0 || i >= BREAKPOINTS - 1 {
        None
    } else if percent_table()[i + 1].0 >= v {
        Some(i)
    } else {
        first_pair_from(v, i + 1)
    }
}

/// `n / d` rounded to the nearest integer, halves away from zero.
pub open spec fn round_div(n: int, d: int) -> int {
    if n >= 0 {
        (2 * n + d) / (2 * d)
    } else {
        -((-2 * n + d) / (2 * d))
    }
}

/// Linear interpolation between pair `i` and `i + 1`, in tenths of a percent,
/// rounded to the nearest tenth.
pub open spec fn interpolate(v: int, i: int) -> int {
    let (v1, p1) = percent_table()[i];
    let (v2, p2) = percent_table()[i + 1];
    round_div((v - v1) * (p2 - p1) + p1 * (v2 - v1), v2 - v1)
}

/// Charge of a cell at `v` microvolts, in tenths of a percent: none above the
/// table's top voltage.
pub open spec fn spec_v_to_percent(v: int) -> Option<int> {
    match first_pair_from(v, 0) {
        Some(i) => Some(interpolate(v, i)),
        None => None,
    }
}

/// Maps a per-cell voltage, in microvolts, to the cell's charge in tenths of a
/// percent.
///
/// The first pair of neighbouring breakpoints whose upper voltage is at least
/// `value` is interpolated linearly, and the result rounded to a tenth of a
/// percent. A voltage above the table's top gives none; one below its bottom
/// is extrapolated from the lowest pair, and may come out negative.
pub fn v_to_percent(value: u32) -> (r: Option<i32>)
    ensures
        r matches Some(p) ==> spec_v_to_percent(value as int) == Some(p as int),
        r is None ==> spec_v_to_percent(value as int) is None,
{
    let mut i: usize = 0;
    while i < BREAKPOINTS - 1
        invariant
            i <= BREAKPOINTS - 1,
            first_pair_from(value as int, 0) == first_pair_from(value as int, i as int),
        decreases BREAKPOINTS - 1 - i,
    {
        let (v2, p2) = breakpoint(i + 1);
        if v2 >= value {
            let (v1, p1) = breakpoint(i);
            proof {
                lemma_pair_shape(i as int);
            }
            let d: i64 = v2 as i64 - v1 as i64;
            let x: i64 = value as i64 - v1 as i64;
            let rise: i64 = p2 as i64 - p1 as i64;
            assert(-4_300_000 <= x <= 1_300_000);
            assert(0 <= rise <= 260);
            assert(-4_300_000 * 260 <= x * rise <= 1_300_000 * 260) by (nonlinear_arith)
                requires
                    -4_300_000 <= x <= 1_300_000,
                    0 <= rise <= 260,
            ;
            assert(0 <= p1 * d <= 1100 * 1_300_000) by (nonlinear_arith)
                requires
                    0 <= p1 <= 1100,
                    0 < d <= 1_300_000,
            ;
            let n: i64 = x * rise + p1 as i64 * d;
            assert(-4_300_000 * 260 <= n <= 1_300_000 * 260 + 1100 * 1_300_000);
            let pct: i64 = if n >= 0 {
                (2 * n + d) / (2 * d)
            } else {
                -((-2 * n + d) / (2 * d))
            };
            proof {
                lemma_round_bounds(n as int, d as int);
            }
            return Some(pct as i32);
        }
        i = i + 1;
    }
    None
}

/// No pair lies at or after `i` for a voltage above the table's top.
proof fn lemma_no_pair_above_top(v: int, i: int)
    requires
        v > 4_300_000,
    ensures
        first_pair_from(v, i) is None,
    decreases BREAKPOINTS - 1 - i,
{
    if 0 <= i < BREAKPOINTS - 1 {
        lemma_pair_shape(i);
        lemma_no_pair_above_top(v, i + 1);
    }
}

/// A cell voltage above the table's top voltage of 4.3 V has no charge value.
pub proof fn lemma_above_top_has_no_percent(v: int)
    requires
        v > 4_300_000,
    ensures
        spec_v_to_percent(v) is None,
{
    lemma_no_pair_above_top(v, 0);
}

/// Microvolts per hundredth of a volt of pack voltage, for one of the pack's
/// four cells.
pub const CELL_UV_PER_PACK_CV: u32 = 2_500;

/// Highest pack voltage, in hundredths of a volt, whose cells lie within the
/// calibration table (4 x 4.3 V).
pub const MAX_PACK_CV: u32 = 1_720;

/// Charge of a cell of a four-cell pack at `pack_cv` hundredths of a volt, in
/// tenths of a percent, zero where the table gives none.
pub open spec fn spec_battery_percent(pack_cv: int) -> int {
    match spec_v_to_percent(pack_cv * CELL_UV_PER_PACK_CV) {
        Some(p) => p,
        None => 0,
    }
}

/// Charge of a four-cell pack at `pack_cv` hundredths of a volt, in tenths of a
/// percent: each cell holds a quarter of the pack voltage. A voltage above the
/// table's top reports zero.
pub fn battery_percent(pack_cv: u32) -> (r: i32)
    ensures
        r == spec_battery_percent(pack_cv as int),
{
    if pack_cv > MAX_PACK_CV {
        proof {
            lemma_above_top_has_no_percent(pack_cv * CELL_UV_PER_PACK_CV);
        }
        return 0;
    }
    match v_to_percent(pack_cv * CELL_UV_PER_PACK_CV) {
        Some(p) => p,
        None => 0,
    }
}

/// One poll cycle on a raw snapshot captured at `now`, the previous capture
/// having been at `prev`: the snapshot is converted and checked, tagged with
/// the elapsed time, and its energy added to the day's totals. A snapshot that
/// fails its check leaves the totals as they were.
pub fn run_cycle(energy: &mut EnergyState, prev: CaptureTime, now: CaptureTime, raw: SolarData) -> (r:
    Result<CumulativeSolarData, ConvertError>)
    ensures
        match raw.spec_convert() {
            Ok(reading) => {
                &&& r == Ok::<CumulativeSolarData, ConvertError>(
                    CumulativeSolarData::spec_from_snapshot(prev, now, reading),
                )
                &&& *final(energy) == old(energy).spec_accumulate(prev, r->Ok_0)
            },
            Err(e) => {
                &&& r == Err::<CumulativeSolarData, ConvertError>(e)
                &&& *final(energy) == *old(energy)
            },
        },
{
    match raw.convert() {
        Ok(reading) => {
            let cum = CumulativeSolarData::from_snapshot(prev, now, reading);
            energy.accumulate(prev, &cum);
            Ok(cum)
        },
        Err(e) => Err(e),
    }
}

/// A rounded quotient of bounded operands stays within an i32.
proof fn lemma_round_bounds(n: int, d: int)
    requires
        -4_300_000 * 260 <= n <= 1_300_000 * 260 + 1100 * 1_300_000,
        50_000 <= d,
    ensures
        -100_000 <= round_div(n, d) <= 100_000,
{
    if n >= 0 {
        assert((2 * n + d) / (2 * d) <= 100_000) by (nonlinear_arith)
            requires
                0 <= n <= 1_300_000 * 260 + 1100 * 1_300_000,
                50_000 <= d,
        ;
        assert((2 * n + d) / (2 * d) >= 0) by (nonlinear_arith)
            requires
                0 <= n,
                50_000 <= d,
        ;
    } else {
        assert((-2 * n + d) / (2 * d) <= 100_000) by (nonlinear_arith)
            requires
                0 < -n <= 4_300_000 * 260,
                50_000 <= d,
        ;
        assert((-2 * n + d) / (2 * d) >= 0) by (nonlinear_arith)
            requires
                0 < -n,
                50_000 <= d,
        ;
    }
}

} // verus!
