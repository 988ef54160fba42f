//! The driver against the simulated device: bit-field editing, power
//! control, square-wave control, date-time transfer, failure paths.

use ds1307::datetime::{DateTime, DateTimeError};
use ds1307::ds1307::Ds1307;
use ds1307::error::Error;
use ds1307::registers::Register;
use ds1307::sim::SimBus;
use ds1307::square_wave::{freq_to_bits, SquareWaveFreq};

fn write_count(bus: &SimBus) -> usize {
    (0..bus.op_count()).filter(|&i| bus.op_is_write(i)).count()
}

fn read_count(bus: &SimBus) -> usize {
    (0..bus.op_count()).filter(|&i| !bus.op_is_write(i)).count()
}

#[test]
fn set_bits_reads_but_avoids_redundant_write() {
    let mut bus = SimBus::new();
    bus.set_byte(7, 0b0001_0000);
    let mut drv = Ds1307::new(bus);
    drv.set_register_bits(Register::Control, 0b0001_0000).unwrap();
    let bus = drv.release_i2c();
    assert_eq!(read_count(&bus), 1);
    assert_eq!(write_count(&bus), 0);
    assert_eq!(bus.byte(7), 0b0001_0000);
}

#[test]
fn clear_bits_writes_when_value_changes() {
    let mut bus = SimBus::new();
    bus.set_byte(7, 0b0001_0000);
    let mut drv = Ds1307::new(bus);
    drv.clear_register_bits(Register::Control, 0b0001_0000).unwrap();
    let bus = drv.release_i2c();
    assert_eq!(read_count(&bus), 1);
    assert_eq!(write_count(&bus), 1);
    assert_eq!(bus.byte(7), 0b0000_0000);
}

#[test]
fn halt_clock_twice_writes_only_once() {
    let mut drv = Ds1307::new(SimBus::new());
    drv.halt_clock().unwrap();
    let bus = drv.release_i2c();
    assert_eq!(read_count(&bus), 1);
    assert_eq!(write_count(&bus), 1);
    assert_eq!(bus.byte(0) & 0x80, 0x80);
    let mut drv = Ds1307::new(bus);
    drv.halt_clock().unwrap();
    let bus = drv.release_i2c();
    assert_eq!(read_count(&bus), 2);
    assert_eq!(write_count(&bus), 1);
    assert_eq!(bus.byte(0) & 0x80, 0x80);
}

#[test]
fn start_clock_clears_halt_bit_and_keeps_seconds() {
    let mut bus = SimBus::new();
    bus.set_byte(0, 0x80 | 0x45);
    let mut drv = Ds1307::new(bus);
    drv.start_clock().unwrap();
    let bus = drv.release_i2c();
    assert_eq!(bus.byte(0), 0x45);
    let mut drv = Ds1307::new(bus);
    drv.start_clock().unwrap();
    let bus = drv.release_i2c();
    assert_eq!(write_count(&bus), 1);
    assert_eq!(read_count(&bus), 2);
}

#[test]
fn output_high_and_low_drive_out_bit() {
    let mut drv = Ds1307::new(SimBus::new());
    drv.set_output_high().unwrap();
    let bus = drv.release_i2c();
    assert_eq!(bus.byte(7), 0x80);
    let mut drv = Ds1307::new(bus);
    drv.set_output_high().unwrap();
    let bus = drv.release_i2c();
    assert_eq!(write_count(&bus), 1, "already high: no second write");
    let mut drv = Ds1307::new(bus);
    drv.set_output_low().unwrap();
    let bus = drv.release_i2c();
    assert_eq!(bus.byte(7), 0x00);
    assert_eq!(write_count(&bus), 2);
}

#[test]
fn output_modes_disable_square_wave() {
    let mut drv = Ds1307::new(SimBus::new());
    drv.start_square_wave(SquareWaveFreq::Hz1).unwrap();
    let bus = drv.release_i2c();
    assert_eq!(bus.byte(7) & 0x10, 0x10);
    let mut drv = Ds1307::new(bus);
    drv.set_output_high().unwrap();
    let bus = drv.release_i2c();
    assert_eq!(bus.byte(7) & 0x10, 0x00, "square wave off");
    assert_eq!(bus.byte(7) & 0x80, 0x80, "output driven high");
}

#[test]
fn frequency_mapping_matches_rate_select_codes() {
    assert_eq!(freq_to_bits(SquareWaveFreq::Hz1).unwrap(), 0b00);
    assert_eq!(freq_to_bits(SquareWaveFreq::Hz4096).unwrap(), 0b01);
    assert_eq!(freq_to_bits(SquareWaveFreq::Hz8192).unwrap(), 0b10);
    assert_eq!(freq_to_bits(SquareWaveFreq::Hz32768).unwrap(), 0b11);
    assert_eq!(
        freq_to_bits(SquareWaveFreq::Hz1024).unwrap_err(),
        Error::UnsupportedSqwFrequency
    );
    assert_eq!(
        freq_to_bits(SquareWaveFreq::Custom(60)).unwrap_err(),
        Error::UnsupportedSqwFrequency
    );
}

#[test]
fn unsupported_frequency_issues_no_transaction() {
    let mut drv = Ds1307::new(SimBus::new());
    assert_eq!(
        drv.start_square_wave(SquareWaveFreq::Hz1024).unwrap_err(),
        Error::UnsupportedSqwFrequency
    );
    assert_eq!(
        drv.set_square_wave_frequency(SquareWaveFreq::Custom(50)).unwrap_err(),
        Error::UnsupportedSqwFrequency
    );
    let bus = drv.release_i2c();
    assert_eq!(bus.op_count(), 0);
}

#[test]
fn start_square_wave_sets_rate_enable_and_clears_out() {
    let mut bus = SimBus::new();
    bus.set_byte(7, 0x80);
    let mut drv = Ds1307::new(bus);
    drv.start_square_wave(SquareWaveFreq::Hz4096).unwrap();
    let bus = drv.release_i2c();
    assert_eq!(bus.byte(7), 0x11, "rate 0b01, enable set, output cleared");
}

#[test]
fn set_frequency_preserves_enable_state() {
    let mut drv = Ds1307::new(SimBus::new());
    drv.start_square_wave(SquareWaveFreq::Hz1).unwrap();
    let bus = drv.release_i2c();
    assert_eq!(bus.byte(7), 0x10);
    let mut drv = Ds1307::new(bus);
    drv.set_square_wave_frequency(SquareWaveFreq::Hz32768).unwrap();
    let bus = drv.release_i2c();
    assert_eq!(bus.byte(7), 0x13, "rate changed, enable kept");
    let mut drv = Ds1307::new(bus);
    drv.disable_square_wave().unwrap();
    let bus = drv.release_i2c();
    assert_eq!(bus.byte(7), 0x03, "enable cleared, rate kept");
}

#[test]
fn enable_square_wave_toggles_only_enable_and_out() {
    let mut bus = SimBus::new();
    bus.set_byte(7, 0x82);
    let mut drv = Ds1307::new(bus);
    drv.enable_square_wave().unwrap();
    let bus = drv.release_i2c();
    assert_eq!(bus.byte(7), 0x12, "enable set, output cleared, rate kept");
}

#[test]
fn set_datetime_writes_one_bcd_burst() {
    let mut drv = Ds1307::new(SimBus::new());
    let dt = DateTime::new(2024, 3, 15, 14, 30, 45).unwrap();
    drv.set_datetime(&dt).unwrap();
    let bus = drv.release_i2c();
    assert_eq!(bus.op_count(), 1);
    assert!(bus.op_is_write(0));
    assert_eq!(bus.op_len(0), 8);
    let frame: Vec<u8> = (0..8).map(|j| bus.op_byte(0, j)).collect();
    assert_eq!(frame, vec![0x00, 0x45, 0x30, 0x14, 0x06, 0x15, 0x03, 0x24]);
    assert_eq!(bus.byte(0), 0x45, "clock-halt bit left clear");
    assert_eq!(bus.byte(2), 0x14, "24-hour mode forced");
    assert_eq!(bus.byte(3), 0x06, "weekday derived: Friday");
}

#[test]
fn get_datetime_returns_what_was_set() {
    let mut drv = Ds1307::new(SimBus::new());
    let dt = DateTime::new(2024, 2, 29, 23, 59, 58).unwrap();
    drv.set_datetime(&dt).unwrap();
    let back = drv.get_datetime().unwrap();
    assert_eq!(back, dt);
}

#[test]
fn get_datetime_ignores_stored_weekday_byte() {
    let mut drv = Ds1307::new(SimBus::new());
    let dt = DateTime::new(2024, 3, 15, 8, 0, 0).unwrap();
    drv.set_datetime(&dt).unwrap();
    let mut bus = drv.release_i2c();
    bus.set_byte(3, 0x01);
    let mut drv = Ds1307::new(bus);
    let back = drv.get_datetime().unwrap();
    assert_eq!(back, dt, "weekday register is recomputed, not trusted");
}

#[test]
fn get_datetime_masks_clock_halt_bit() {
    let mut bus = SimBus::new();
    bus.set_byte(0, 0x80 | 0x12);
    bus.set_byte(4, 0x01);
    bus.set_byte(5, 0x01);
    let mut drv = Ds1307::new(bus);
    let dt = drv.get_datetime().unwrap();
    assert_eq!(dt.second(), 12);
}

#[test]
fn get_datetime_reads_both_hour_modes() {
    let cases = [
        (0x52u8, 0u8),
        (0x72, 12),
        (0x49, 9),
        (0x65, 17),
        (0x71, 23),
        (0x00, 0),
        (0x23, 23),
        (0x12, 12),
    ];
    for (raw, expect) in cases {
        let mut bus = SimBus::new();
        bus.set_byte(2, raw);
        bus.set_byte(4, 0x01);
        bus.set_byte(5, 0x01);
        let mut drv = Ds1307::new(bus);
        let dt = drv.get_datetime().unwrap();
        assert_eq!(dt.hour(), expect, "raw hours byte {raw:#04x}");
    }
}

#[test]
fn get_datetime_rejects_invalid_wire_fields() {
    let mut bus = SimBus::new();
    bus.set_byte(4, 0x01);
    bus.set_byte(5, 0x13);
    let mut drv = Ds1307::new(bus);
    assert_eq!(
        drv.get_datetime().unwrap_err(),
        Error::DateTime(DateTimeError::InvalidMonth)
    );
    let mut bus = SimBus::new();
    bus.set_byte(4, 0x00);
    bus.set_byte(5, 0x01);
    let mut drv = Ds1307::new(bus);
    assert_eq!(
        drv.get_datetime().unwrap_err(),
        Error::DateTime(DateTimeError::InvalidDay)
    );
}

#[test]
fn set_datetime_enforces_device_year_window() {
    let mut drv = Ds1307::new(SimBus::new());
    let early = DateTime::new(1999, 12, 31, 23, 59, 59).unwrap();
    assert_eq!(
        drv.set_datetime(&early).unwrap_err(),
        Error::DateTime(DateTimeError::InvalidYear)
    );
    let late = DateTime::new(2100, 1, 1, 0, 0, 0).unwrap();
    assert_eq!(
        drv.set_datetime(&late).unwrap_err(),
        Error::DateTime(DateTimeError::InvalidYear)
    );
    let bus = drv.release_i2c();
    assert_eq!(bus.op_count(), 0, "rejected before any bus transaction");
    let mut drv = Ds1307::new(bus);
    let first = DateTime::new(2000, 1, 1, 0, 0, 0).unwrap();
    assert!(drv.set_datetime(&first).is_ok());
    let last = DateTime::new(2099, 12, 31, 23, 59, 59).unwrap();
    assert!(drv.set_datetime(&last).is_ok());
}

#[test]
fn bus_failure_surfaces_as_i2c_error() {
    let mut bus = SimBus::new();
    bus.fail_after(0);
    let mut drv = Ds1307::new(bus);
    assert!(matches!(drv.halt_clock(), Err(Error::I2c(_))));
    let bus = drv.release_i2c();
    assert_eq!(bus.op_count(), 0);
}

#[test]
fn failed_write_leaves_register_unchanged() {
    let mut bus = SimBus::new();
    bus.fail_after(1);
    let mut drv = Ds1307::new(bus);
    assert!(matches!(drv.halt_clock(), Err(Error::I2c(_))));
    let bus = drv.release_i2c();
    assert_eq!(bus.byte(0), 0, "read succeeded, write failed, state kept");
    assert_eq!(read_count(&bus), 1);
    assert_eq!(write_count(&bus), 0);
}

#[test]
fn read_register_reports_current_byte() {
    let mut bus = SimBus::new();
    bus.set_byte(6, 0x24);
    let mut drv = Ds1307::new(bus);
    assert_eq!(drv.read_register(Register::Year).unwrap(), 0x24);
    drv.write_register(Register::Year, 0x25).unwrap();
    assert_eq!(drv.read_register(Register::Year).unwrap(), 0x25);
}
