//! Register snapshots, their conversion into validated readings, and the
//! per-interval energy derived from them.
use crate::clock::{elapsed_ns, spec_elapsed_ns, CaptureTime};
use vstd::prelude::*;

verus! {

/// Amount added to the raw battery reading (in hundredths of a volt) to make
/// up for the sensor's known offset of 0.04 V.
pub const BATTERY_OFFSET_CV: u16 = 4;

/// Panel currents below this many hundredths of an ampere (0.05 A) are noise
/// and are reported as exactly zero.
pub const PANEL_NOISE_FLOOR_CA: u16 = 5;

/// Panel and load power must stay below 400 W (in ten-thousandths of a watt).
pub const MAX_WATTS_E4: u32 = 4_000_000;

/// The battery must read above 11.2 V (in hundredths of a volt).
pub const MIN_BATTERY_CV: u16 = 1120;

/// One snapshot of the controller's registers, each a fixed-point value
/// scaled by 100, as read.
#[derive(Clone, Copy, Debug, PartialEq, Eq, Structural)]
pub struct SolarData {
    pub battery_voltage_times_100: u16,
    pub panel_voltage_times_100: u16,
    pub panel_current_times_100: u16,
    pub load_current_times_100: u16,
}

/// A snapshot after correction: the battery voltage with its offset added
/// (held wider than a register, so that no reading is lost to the offset),
/// and the panel current with noise suppressed. Each value is scaled by 100.
#[derive(Clone, Copy, Debug, PartialEq, Eq, Structural)]
pub struct ValidatedReading {
    pub battery_voltage_times_100: u32,
    pub panel_voltage_times_100: u16,
    pub panel_current_times_100: u16,
    pub load_current_times_100: u16,
}

/// Why a snapshot could not become a reading.
#[derive(Clone, Copy, Debug, PartialEq, Eq, Structural)]
pub enum ConvertError {
    /// The register bytes could not be decoded.
    Decode,
    /// A derived quantity lies outside the plausible range.
    OutOfRange,
}

/// Panel and load power below 400 W and battery above 11.2 V.
pub open spec fn within_limits(panel_watts: int, battery_cv: int, load_watts: int) -> bool {
    &&& panel_watts < MAX_WATTS_E4
    &&& battery_cv > MIN_BATTERY_CV
    &&& load_watts < MAX_WATTS_E4
}

impl SolarData {
    /// Panel power in ten-thousandths of a watt.
    pub open spec fn spec_panel_watts(self) -> int {
        self.panel_voltage_times_100 * self.panel_current_times_100
    }

    /// Load power in ten-thousandths of a watt: the load draws at battery
    /// voltage.
    pub open spec fn spec_load_watts(self) -> int {
        self.battery_voltage_times_100 * self.load_current_times_100
    }

    pub open spec fn spec_is_valid(self) -> bool {
        within_limits(self.spec_panel_watts(), self.battery_voltage_times_100 as int, self.spec_load_watts())
    }

    /// The snapshot with the battery offset added and panel noise suppressed.
    pub open spec fn spec_corrected(self) -> ValidatedReading {
        ValidatedReading {
            battery_voltage_times_100: (self.battery_voltage_times_100 + BATTERY_OFFSET_CV) as u32,
            panel_voltage_times_100: self.panel_voltage_times_100,
            panel_current_times_100:
                if self.panel_current_times_100 < PANEL_NOISE_FLOOR_CA { 0 } else { self.panel_current_times_100 },
            load_current_times_100: self.load_current_times_100,
        }
    }

    /// The reading that a raw snapshot converts to: corrections first, then
    /// the plausibility check on the corrected values.
    pub open spec fn spec_convert(self) -> Result<ValidatedReading, ConvertError> {
        if self.spec_corrected().spec_is_valid() {
            Ok(self.spec_corrected())
        } else {
            Err(ConvertError::OutOfRange)
        }
    }

    /// Panel power in ten-thousandths of a watt (panel volts times panel amps).
    pub fn panel_watts(&self) -> (r: u32)
        ensures
            r == self.spec_panel_watts(),
    {
        proof {
            lemma_product_fits(self.panel_voltage_times_100, self.panel_current_times_100);
        }
        self.panel_voltage_times_100 as u32 * self.panel_current_times_100 as u32
    }

    /// Load power in ten-thousandths of a watt (battery volts times load amps).
    pub fn load_watts(&self) -> (r: u32)
        ensures
            r == self.spec_load_watts(),
    {
        proof {
            lemma_product_fits(self.battery_voltage_times_100, self.load_current_times_100);
        }
        self.battery_voltage_times_100 as u32 * self.load_current_times_100 as u32
    }

    /// Battery voltage in hundredths of a volt.
    pub fn bat_v(&self) -> (r: u16)
        ensures
            r == self.battery_voltage_times_100,
    {
        self.battery_voltage_times_100
    }

    /// Panel voltage in hundredths of a volt.
    pub fn panel_v(&self) -> (r: u16)
        ensures
            r == self.panel_voltage_times_100,
    {
        self.panel_voltage_times_100
    }

    /// Load current in hundredths of an ampere.
    pub fn load_current(&self) -> (r: u16)
        ensures
            r == self.load_current_times_100,
    {
        self.load_current_times_100
    }

    /// Panel current in hundredths of an ampere.
    pub fn panel_current(&self) -> (r: u16)
        ensures
            r == self.panel_current_times_100,
    {
        self.panel_current_times_100
    }

    /// Whether the values as read, before any correction, are plausible:
    /// panel power below 400 W, battery above 11.2 V and load power below
    /// 400 W.
    pub fn is_valid(&self) -> (r: bool)
        ensures
            r == self.spec_is_valid(),
    {
        self.panel_watts() < MAX_WATTS_E4 && self.battery_voltage_times_100 > MIN_BATTERY_CV
            && self.load_watts() < MAX_WATTS_E4
    }

    /// Turns a raw snapshot into a validated reading.
    ///
    /// The battery offset is added and panel noise suppressed first; the
    /// plausibility check then runs on the corrected values, so that a reading
    /// that comes out is exactly what was checked.
    pub fn convert(self) -> (r: Result<ValidatedReading, ConvertError>)
        ensures
            r == self.spec_convert(),
            r is Ok <==> self.spec_corrected().spec_is_valid(),
    {
        let corrected = ValidatedReading {
            battery_voltage_times_100: self.battery_voltage_times_100 as u32 + BATTERY_OFFSET_CV as u32,
            panel_voltage_times_100: self.panel_voltage_times_100,
            panel_current_times_100: if self.panel_current_times_100 < PANEL_NOISE_FLOOR_CA {
                0
            } else {
                self.panel_current_times_100
            },
            load_current_times_100: self.load_current_times_100,
        };
        if corrected.is_valid() {
            Ok(corrected)
        } else {
            Err(ConvertError::OutOfRange)
        }
    }
}

impl ValidatedReading {
    /// Panel power in ten-thousandths of a watt.
    pub open spec fn spec_panel_watts(self) -> int {
        self.panel_voltage_times_100 * self.panel_current_times_100
    }

    /// Load power in ten-thousandths of a watt: the load draws at battery
    /// voltage.
    pub open spec fn spec_load_watts(self) -> int {
        self.battery_voltage_times_100 * self.load_current_times_100
    }

    pub open spec fn spec_is_valid(self) -> bool {
        within_limits(self.spec_panel_watts(), self.battery_voltage_times_100 as int, self.spec_load_watts())
    }

    /// Panel power in ten-thousandths of a watt (panel volts times panel amps).
    pub fn panel_watts(&self) -> (r: u32)
        ensures
            r == self.spec_panel_watts(),
    {
        proof {
            lemma_product_fits(self.panel_voltage_times_100, self.panel_current_times_100);
        }
        self.panel_voltage_times_100 as u32 * self.panel_current_times_100 as u32
    }

    /// Load power in ten-thousandths of a watt (battery volts times load amps).
    pub fn load_watts(&self) -> (r: u64)
        ensures
            r == self.spec_load_watts(),
    {
        proof {
            lemma_wide_product_fits(self.battery_voltage_times_100, self.load_current_times_100);
        }
        self.battery_voltage_times_100 as u64 * self.load_current_times_100 as u64
    }

    /// Battery voltage in hundredths of a volt.
    pub fn bat_v(&self) -> (r: u32)
        ensures
            r == self.battery_voltage_times_100,
    {
        self.battery_voltage_times_100
    }

    /// Panel voltage in hundredths of a volt.
    pub fn panel_v(&self) -> (r: u16)
        ensures
            r == self.panel_voltage_times_100,
    {
        self.panel_voltage_times_100
    }

    /// Load current in hundredths of an ampere.
    pub fn load_current(&self) -> (r: u16)
        ensures
            r == self.load_current_times_100,
    {
        self.load_current_times_100
    }

    /// Panel current in hundredths of an ampere.
    pub fn panel_current(&self) -> (r: u16)
        ensures
            r == self.panel_current_times_100,
    {
        self.panel_current_times_100
    }

    /// Panel power below 400 W, battery above 11.2 V and load power below
    /// 400 W.
    pub fn is_valid(&self) -> (r: bool)
        ensures
            r == self.spec_is_valid(),
    {
        self.panel_watts() < MAX_WATTS_E4 && self.battery_voltage_times_100 > MIN_BATTERY_CV as u32
            && self.load_watts() < MAX_WATTS_E4 as u64
    }
}

/// Conversion depends on the snapshot alone: equal snapshots convert to equal
/// results.
pub proof fn lemma_convert_deterministic(a: SolarData, b: SolarData)
    requires
        a == b,
    ensures
        a.spec_convert() == b.spec_convert(),
{
}

/// A panel current below the noise floor of 0.05 A is reported as exactly
/// zero.
pub proof fn lemma_noise_floor(raw: SolarData)
    requires
        raw.panel_current_times_100 < PANEL_NOISE_FLOOR_CA,
        raw.spec_convert() is Ok,
    ensures
        raw.spec_convert()->Ok_0.panel_current_times_100 == 0,
        raw.spec_convert()->Ok_0.spec_panel_watts() == 0,
{
    assert(raw.panel_voltage_times_100 * 0 == 0);
}

/// A snapshot whose corrected panel power is at least 400 W, whose corrected
/// battery voltage is at most 11.2 V, or whose corrected load power is at
/// least 400 W is rejected as out of range.
pub proof fn lemma_out_of_range(raw: SolarData)
    requires
        raw.spec_corrected().spec_panel_watts() >= MAX_WATTS_E4
            || raw.spec_corrected().battery_voltage_times_100 <= MIN_BATTERY_CV
            || raw.spec_corrected().spec_load_watts() >= MAX_WATTS_E4,
    ensures
        raw.spec_convert() == Err::<ValidatedReading, ConvertError>(ConvertError::OutOfRange),
{
}

/// Size of a framed snapshot: four little-endian 16-bit registers followed by a
/// 32-bit checksum trailer.
pub const SOLAR_DATA_SIZE: usize = 12;

/// The 16-bit little-endian value of two bytes.
pub open spec fn le_u16(lo: u8, hi: u8) -> int {
    lo + 256 * hi
}

/// Parsing depends on the frame's bytes alone: equal frames parse to equal
/// results.
pub proof fn lemma_parse_deterministic(a: Seq<u8>, b: Seq<u8>)
    requires
        a == b,
    ensures
        spec_decode(a).spec_convert() == spec_decode(b).spec_convert(),
{
}

/// The raw snapshot that a frame holds in its first eight bytes.
pub open spec fn spec_decode(data: Seq<u8>) -> SolarData {
    SolarData {
        battery_voltage_times_100: le_u16(data[0], data[1]) as u16,
        panel_voltage_times_100: le_u16(data[2], data[3]) as u16,
        panel_current_times_100: le_u16(data[4], data[5]) as u16,
        load_current_times_100: le_u16(data[6], data[7]) as u16,
    }
}

#[verifier::external_type_specification]
#[verifier::external_body]
pub struct ExMarshalError(ssmarshal::Error);

/// Relies on ssmarshal::deserialize for a tuple of four u16: each field is
/// read as two little-endian bytes, in order, and eight bytes are consumed.
#[verifier::external_body]
fn decode_registers(data: &[u8]) -> (r: Result<((u16, u16, u16, u16), usize), ssmarshal::Error>)
    requires
        data@.len() >= 8,
    ensures
        r is Ok,
        r->Ok_0.1 == 8,
        r->Ok_0.0.0 == le_u16(data@[0], data@[1]),
        r->Ok_0.0.1 == le_u16(data@[2], data@[3]),
        r->Ok_0.0.2 == le_u16(data@[4], data@[5]),
        r->Ok_0.0.3 == le_u16(data@[6], data@[7]),
{
    ssmarshal::deserialize::<(u16, u16, u16, u16)>(data)
}

impl SolarData {
    /// Decodes a framed snapshot and converts it into a validated reading.
    pub fn parse(data: &[u8; SOLAR_DATA_SIZE]) -> (r: Result<ValidatedReading, ConvertError>)
        ensures
            r == spec_decode(data@).spec_convert(),
    {
        let bytes: &[u8] = data.as_slice();
        match decode_registers(bytes) {
            Ok(((battery, panel_v, panel_i, load_i), _)) => {
                let raw = SolarData {
                    battery_voltage_times_100: battery,
                    panel_voltage_times_100: panel_v,
                    panel_current_times_100: panel_i,
                    load_current_times_100: load_i,
                };
                raw.convert()
            },
            Err(_) => Err(ConvertError::Decode),
        }
    }
}

/// Energy ticks in one watt-second: a tick is a ten-thousandth of a watt held
/// for one nanosecond.
pub const TICKS_PER_WATT_SECOND: u128 = 10_000_000_000_000;

/// Energy ticks in one watt-hour.
pub const TICKS_PER_WATT_HOUR: u128 = 36_000_000_000_000_000;

/// Energy ticks in one micro-watt-hour.
pub const TICKS_PER_MICRO_WATT_HOUR: u128 = 36_000_000_000;

/// A reading tagged with its capture instant and the time elapsed since the
/// previous capture.
#[derive(Clone, Copy, Debug, PartialEq, Eq, Structural)]
pub struct CumulativeSolarData {
    pub snapshot: ValidatedReading,
    pub time: CaptureTime,
    /// Nanoseconds since the previous capture.
    pub interval_ns: u64,
}

impl CumulativeSolarData {
    pub open spec fn spec_from_snapshot(
        prev: CaptureTime,
        now: CaptureTime,
        snapshot: ValidatedReading,
    ) -> CumulativeSolarData {
        CumulativeSolarData {
            snapshot,
            time: now,
            interval_ns: spec_elapsed_ns(prev, now) as u64,
        }
    }

    /// Panel energy over the interval, in ticks.
    pub open spec fn spec_panel_ticks(self) -> int {
        self.snapshot.spec_panel_watts() * self.interval_ns
    }

    /// Load energy over the interval, in ticks.
    pub open spec fn spec_load_ticks(self) -> int {
        self.snapshot.spec_load_watts() * self.interval_ns
    }

    /// Tags `snapshot`, captured at `now`, with the time elapsed since `prev`
    /// (zero where the clock went backwards).
    pub fn from_snapshot(prev: CaptureTime, now: CaptureTime, snapshot: ValidatedReading) -> (r:
        CumulativeSolarData)
        ensures
            r == Self::spec_from_snapshot(prev, now, snapshot),
    {
        CumulativeSolarData { snapshot, time: now, interval_ns: elapsed_ns(prev, now) }
    }

    /// Panel energy over the interval in ticks: panel power times elapsed time.
    pub fn panel_watt_s(&self) -> (r: u128)
        ensures
            r == self.spec_panel_ticks(),
    {
        let w = self.snapshot.panel_watts();
        proof {
            lemma_energy_fits(w as u64, self.interval_ns);
        }
        w as u128 * self.interval_ns as u128
    }

    /// Panel energy over the interval in whole micro-watt-hours, rounded down.
    pub fn panel_watt_h(&self) -> (r: u128)
        ensures
            r == self.spec_panel_ticks() / TICKS_PER_MICRO_WATT_HOUR as int,
    {
        self.panel_watt_s() / TICKS_PER_MICRO_WATT_HOUR
    }

    /// Load energy over the interval in ticks: load power times elapsed time.
    pub fn load_watt_s(&self) -> (r: u128)
        ensures
            r == self.spec_load_ticks(),
    {
        let w = self.snapshot.load_watts();
        proof {
            lemma_energy_fits(w, self.interval_ns);
        }
        w as u128 * self.interval_ns as u128
    }

    /// Load energy over the interval in whole micro-watt-hours, rounded down.
    pub fn load_watt_h(&self) -> (r: u128)
        ensures
            r == self.spec_load_ticks() / TICKS_PER_MICRO_WATT_HOUR as int,
    {
        self.load_watt_s() / TICKS_PER_MICRO_WATT_HOUR
    }
}

/// Power in ten-thousandths of a watt times nanoseconds stays far inside a
/// u128.
pub proof fn lemma_energy_fits(w: u64, ns: u64)
    ensures
        0 <= w * ns <= u64::MAX * u64::MAX,
        u64::MAX * u64::MAX < u128::MAX,
{
    assert(0 <= w * ns <= u64::MAX * u64::MAX) by (nonlinear_arith);
}

/// The energy of any reading fits a u128.
pub proof fn lemma_ticks_fit(c: CumulativeSolarData)
    ensures
        0 <= c.spec_panel_ticks() <= u128::MAX,
        0 <= c.spec_load_ticks() <= u128::MAX,
        c.interval_ns == 0 ==> c.spec_panel_ticks() == 0 && c.spec_load_ticks() == 0,
{
    lemma_product_fits(c.snapshot.panel_voltage_times_100, c.snapshot.panel_current_times_100);
    lemma_wide_product_fits(c.snapshot.battery_voltage_times_100, c.snapshot.load_current_times_100);
    lemma_energy_fits(c.snapshot.spec_panel_watts() as u64, c.interval_ns);
    lemma_energy_fits(c.snapshot.spec_load_watts() as u64, c.interval_ns);
    if c.interval_ns == 0 {
        assert(c.snapshot.spec_panel_watts() * 0 == 0);
        assert(c.snapshot.spec_load_watts() * 0 == 0);
    }
}

proof fn lemma_wide_product_fits(a: u32, b: u16)
    ensures
        0 <= a * b <= u64::MAX,
{
    assert(0 <= a * b <= u32::MAX * u16::MAX) by (nonlinear_arith);
}

proof fn lemma_product_fits(a: u16, b: u16)
    ensures
        0 <= a * b <= u32::MAX,
{
    assert(0 <= a * b <= u16::MAX * u16::MAX) by (nonlinear_arith);
}

} // verus!
