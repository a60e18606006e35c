use energy_monitor::clock::{elapsed_ns, CaptureTime};
use energy_monitor::energy::EnergyState;
use energy_monitor::ser::{ConvertError, CumulativeSolarData, SolarData, ValidatedReading, SOLAR_DATA_SIZE};
use energy_monitor::{battery_percent, run_cycle, v_to_percent};

fn raw(battery: u16, panel_v: u16, panel_i: u16, load_i: u16) -> SolarData {
    SolarData {
        battery_voltage_times_100: battery,
        panel_voltage_times_100: panel_v,
        panel_current_times_100: panel_i,
        load_current_times_100: load_i,
    }
}

fn reading(battery: u32, panel_v: u16, panel_i: u16, load_i: u16) -> ValidatedReading {
    ValidatedReading {
        battery_voltage_times_100: battery,
        panel_voltage_times_100: panel_v,
        panel_current_times_100: panel_i,
        load_current_times_100: load_i,
    }
}

fn at(unix_nanos: i64, local_day: i32) -> CaptureTime {
    CaptureTime { unix_nanos, local_day }
}

#[test]
fn v_to_percent_test() {
    // Linear interpolation between (3.7 V, 33 %) and (3.8 V, 59 %) at 3.745 V
    // gives 33 + 0.45 * 26 = 44.7 %, not 47.3 % (which would be 59 - 0.45 * 26).
    assert_eq!(447, v_to_percent(3_745_000).unwrap());
}

#[test]
fn percent_between_breakpoints() {
    // 3.745 V lies between (3.7 V, 33 %) and (3.8 V, 59 %): 33 + 0.45 * 26 = 44.7 %.
    assert_eq!(v_to_percent(3_745_000), Some(447));
}

#[test]
fn percent_at_breakpoints() {
    assert_eq!(v_to_percent(3_000_000), Some(0));
    assert_eq!(v_to_percent(3_700_000), Some(330));
    assert_eq!(v_to_percent(4_250_000), Some(1050));
    assert_eq!(v_to_percent(4_300_000), Some(1100));
}

#[test]
fn percent_above_top_is_none() {
    assert_eq!(v_to_percent(4_300_001), None);
    assert_eq!(v_to_percent(5_000_000), None);
    assert_eq!(v_to_percent(u32::MAX), None);
}

#[test]
fn percent_below_bottom_extrapolates() {
    assert_eq!(v_to_percent(2_900_000), Some(-8));
    assert_eq!(v_to_percent(0), Some(-240));
}

#[test]
fn percent_rounds_halves_away_from_zero() {
    assert_eq!(v_to_percent(3_006_250), Some(1));
    assert_eq!(v_to_percent(2_993_750), Some(-1));
}

#[test]
fn pack_percent_uses_quarter_voltage() {
    // 12.52 V over four cells is 3.13 V per cell: 0.8 + 0.3 * 0.4 = 0.92 %.
    assert_eq!(battery_percent(1252), 9);
    assert_eq!(battery_percent(1600), 850);
    assert_eq!(battery_percent(1720), 1100);
    assert_eq!(battery_percent(1721), 0);
    assert_eq!(battery_percent(2000), 0);
    assert_eq!(battery_percent(u32::MAX), 0);
}

#[test]
fn converts_scenario_sample() {
    let r = raw(1248, 1850, 620, 210).convert().unwrap();
    assert_eq!(r.bat_v(), 1252);
    assert_eq!(r.panel_v(), 1850);
    assert_eq!(r.panel_current(), 620);
    assert_eq!(r.load_current(), 210);
    assert_eq!(r.panel_watts(), 1_147_000);
    assert_eq!(r.load_watts(), 262_920);
    assert!(r.is_valid());
}

#[test]
fn conversion_is_repeatable() {
    let s = raw(1300, 1700, 300, 100);
    assert_eq!(s.convert(), s.convert());
}

#[test]
fn raw_values_checked_as_read() {
    assert!(raw(1121, 1850, 620, 210).is_valid());
    assert!(!raw(1120, 1850, 620, 210).is_valid());
    assert_eq!(raw(1248, 1850, 620, 210).load_watts(), 262_080);
}

#[test]
fn panel_noise_is_zeroed() {
    let r = raw(1248, 1850, 4, 210).convert().unwrap();
    assert_eq!(r.panel_current(), 0);
    assert_eq!(r.panel_watts(), 0);
    let r = raw(1248, 1850, 5, 210).convert().unwrap();
    assert_eq!(r.panel_current(), 5);
}

#[test]
fn out_of_range_is_rejected() {
    assert_eq!(raw(1248, 2000, 2000, 0).convert(), Err(ConvertError::OutOfRange));
    assert_eq!(raw(1248, 2000, 1999, 0).convert().map(|r| r.panel_watts()), Ok(3_998_000));
    assert_eq!(raw(1116, 0, 0, 0).convert(), Err(ConvertError::OutOfRange));
    assert!(raw(1117, 0, 0, 0).convert().is_ok());
    assert_eq!(raw(1300, 0, 0, 3068).convert(), Err(ConvertError::OutOfRange));
    assert!(raw(1300, 0, 0, 3067).convert().is_ok());
    assert_eq!(raw(65533, 0, 0, 0).convert(), Ok(reading(65537, 0, 0, 0)));
}

#[test]
fn parses_little_endian_frame() {
    let frame: [u8; SOLAR_DATA_SIZE] = [0xE0, 0x04, 0x3A, 0x07, 0x6C, 0x02, 0xD2, 0x00, 1, 2, 3, 4];
    let r = SolarData::parse(&frame).unwrap();
    assert_eq!(r, reading(1252, 1850, 620, 210));
    let top: [u8; SOLAR_DATA_SIZE] = [0xFD, 0xFF, 0, 0, 0, 0, 0, 0, 0, 0, 0, 0];
    assert_eq!(SolarData::parse(&top).map(|r| r.bat_v()), Ok(65_537));
    let bad: [u8; SOLAR_DATA_SIZE] = [0x10, 0x04, 0, 0, 0, 0, 0, 0, 0, 0, 0, 0];
    assert_eq!(SolarData::parse(&bad), Err(ConvertError::OutOfRange));
}

#[test]
fn energy_over_scenario_interval() {
    let reading = raw(1248, 1850, 620, 210).convert().unwrap();
    let c = CumulativeSolarData::from_snapshot(at(0, 7), at(800_000_000, 7), reading);
    assert_eq!(c.interval_ns, 800_000_000);
    assert_eq!(c.panel_watt_s(), 917_600_000_000_000);
    assert_eq!(c.load_watt_s(), 210_336_000_000_000);
    // 0.0254888... Wh and 0.0058426... Wh
    assert_eq!(c.panel_watt_h(), 25_488);
    assert_eq!(c.load_watt_h(), 5_842);
}

#[test]
fn same_day_adds_increment() {
    let reading = raw(1248, 1850, 620, 210).convert().unwrap();
    let c = CumulativeSolarData::from_snapshot(at(1_000, 7), at(1_000 + 800_000_000, 7), reading);
    let mut e = EnergyState::new(1_000, 2_000);
    e.accumulate(at(1_000, 7), &c);
    assert_eq!(e.panel_ticks, 1_000 + 917_600_000_000_000);
    assert_eq!(e.load_ticks, 2_000 + 210_336_000_000_000);
}

#[test]
fn day_change_resets_totals() {
    let reading = raw(1248, 1850, 620, 210).convert().unwrap();
    let c = CumulativeSolarData::from_snapshot(at(0, 7), at(800_000_000, 8), reading);
    let mut e = EnergyState::new(5_000_000_000_000_000_000, 7_000);
    e.accumulate(at(0, 7), &c);
    assert_eq!(e.panel_ticks, 917_600_000_000_000);
    assert_eq!(e.load_ticks, 210_336_000_000_000);
}

#[test]
fn clock_skew_adds_nothing() {
    let reading = raw(1248, 1850, 620, 210).convert().unwrap();
    let c = CumulativeSolarData::from_snapshot(at(5_000_000_000, 7), at(1_000_000_000, 7), reading);
    assert_eq!(c.interval_ns, 0);
    let mut e = EnergyState::new(1_234, 5_678);
    e.accumulate(at(5_000_000_000, 7), &c);
    assert_eq!(e, EnergyState::new(1_234, 5_678));
}

#[test]
fn totals_saturate() {
    let reading = raw(1248, 1850, 620, 210).convert().unwrap();
    let c = CumulativeSolarData::from_snapshot(at(0, 7), at(800_000_000, 7), reading);
    let mut e = EnergyState::new(u128::MAX - 1, 0);
    e.accumulate(at(0, 7), &c);
    assert_eq!(e.panel_ticks, u128::MAX);
}

#[test]
fn elapsed_covers_full_range() {
    assert_eq!(elapsed_ns(at(i64::MIN, 0), at(i64::MAX, 0)), u64::MAX);
    assert_eq!(elapsed_ns(at(10, 0), at(3, 0)), 0);
    assert_eq!(elapsed_ns(at(3, 0), at(10, 0)), 7);
}

#[test]
fn cycle_accumulates_valid_sample() {
    let mut e = EnergyState::new(100, 200);
    let r = run_cycle(&mut e, at(0, 3), at(800_000_000, 3), raw(1248, 1850, 620, 210)).unwrap();
    assert_eq!(r.snapshot, reading(1252, 1850, 620, 210));
    assert_eq!(r.time, at(800_000_000, 3));
    assert_eq!(e, EnergyState::new(100 + 917_600_000_000_000, 200 + 210_336_000_000_000));
}

#[test]
fn cycle_skips_invalid_sample() {
    let mut e = EnergyState::new(100, 200);
    let r = run_cycle(&mut e, at(0, 3), at(800_000_000, 4), raw(1000, 1850, 620, 210));
    assert_eq!(r, Err(ConvertError::OutOfRange));
    assert_eq!(e, EnergyState::new(100, 200));
}

#[test]
fn capture_time_days() {
    let a = CaptureTime::at(1_000_000_000_000_000_000);
    let b = CaptureTime::at(1_000_000_000_000_000_000 + 86_400_000_000_000);
    assert_eq!(a.unix_nanos, 1_000_000_000_000_000_000);
    assert_eq!(b.local_day, a.local_day + 1);
    assert!(a.same_day(&CaptureTime::at(1_000_000_000_000_000_000 + 1)) || a.local_day + 1 == CaptureTime::at(1_000_000_000_000_000_000 + 1).local_day);
}
