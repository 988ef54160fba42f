//! Auxiliary-storage access: bounds, empty-operation no-ops, burst frames.

use ds1307::ds1307::Ds1307;
use ds1307::error::Error;
use ds1307::sim::SimBus;

#[test]
fn nvram_size_is_fixed() {
    let drv = Ds1307::new(SimBus::new());
    assert_eq!(drv.nvram_size(), 56);
}

#[test]
fn bounds_are_checked_before_any_transaction() {
    let drv = Ds1307::new(SimBus::new());
    assert!(drv.validate_nvram_bounds(0, 56).is_ok());
    assert!(drv.validate_nvram_bounds(55, 1).is_ok());
    assert_eq!(
        drv.validate_nvram_bounds(56, 0).unwrap_err(),
        Error::NvramOutOfBounds
    );
    assert_eq!(
        drv.validate_nvram_bounds(0, 57).unwrap_err(),
        Error::NvramOutOfBounds
    );
    assert_eq!(
        drv.validate_nvram_bounds(55, 2).unwrap_err(),
        Error::NvramOutOfBounds
    );
}

#[test]
fn write_past_end_fails_without_transaction() {
    let mut drv = Ds1307::new(SimBus::new());
    let data = vec![0xAA, 0xBB];
    assert_eq!(
        drv.write_nvram(55, &data).unwrap_err(),
        Error::NvramOutOfBounds
    );
    let bus = drv.release_i2c();
    assert_eq!(bus.op_count(), 0, "only one byte remains at offset 55");
}

#[test]
fn write_at_last_two_bytes_is_one_burst() {
    let mut drv = Ds1307::new(SimBus::new());
    let data = vec![0xAA, 0xBB];
    drv.write_nvram(54, &data).unwrap();
    let bus = drv.release_i2c();
    assert_eq!(bus.op_count(), 1);
    assert!(bus.op_is_write(0));
    assert_eq!(bus.op_len(0), 3);
    assert_eq!(bus.op_byte(0, 0), 0x08 + 54);
    assert_eq!(bus.op_byte(0, 1), 0xAA);
    assert_eq!(bus.op_byte(0, 2), 0xBB);
    assert_eq!(bus.byte(0x3E), 0xAA);
    assert_eq!(bus.byte(0x3F), 0xBB);
}

#[test]
fn empty_read_and_write_touch_nothing() {
    let mut drv = Ds1307::new(SimBus::new());
    let mut empty_buf: Vec<u8> = Vec::new();
    assert!(drv.read_nvram(200, &mut empty_buf).is_ok());
    let empty_data: Vec<u8> = Vec::new();
    assert!(drv.write_nvram(200, &empty_data).is_ok());
    assert!(drv.read_nvram(3, &mut empty_buf).is_ok());
    assert!(drv.write_nvram(3, &empty_data).is_ok());
    let bus = drv.release_i2c();
    assert_eq!(bus.op_count(), 0);
}

#[test]
fn read_past_end_fails_without_transaction() {
    let mut drv = Ds1307::new(SimBus::new());
    let mut buf = vec![0u8; 2];
    assert_eq!(
        drv.read_nvram(55, &mut buf).unwrap_err(),
        Error::NvramOutOfBounds
    );
    assert_eq!(
        drv.read_nvram(56, &mut buf).unwrap_err(),
        Error::NvramOutOfBounds
    );
    let bus = drv.release_i2c();
    assert_eq!(bus.op_count(), 0);
}

#[test]
fn written_bytes_read_back() {
    let mut drv = Ds1307::new(SimBus::new());
    let data = vec![1, 2, 3, 4, 5];
    drv.write_nvram(10, &data).unwrap();
    let mut buf = vec![0u8; 5];
    drv.read_nvram(10, &mut buf).unwrap();
    assert_eq!(buf, data);
    let mut tail = vec![0u8; 2];
    drv.read_nvram(12, &mut tail).unwrap();
    assert_eq!(tail, vec![3, 4]);
}

#[test]
fn whole_window_round_trips() {
    let mut drv = Ds1307::new(SimBus::new());
    let data: Vec<u8> = (0..56u8).map(|i| i.wrapping_mul(3)).collect();
    drv.write_nvram(0, &data).unwrap();
    let mut buf = vec![0u8; 56];
    drv.read_nvram(0, &mut buf).unwrap();
    assert_eq!(buf, data);
    let bus = drv.release_i2c();
    assert_eq!(bus.op_count(), 2);
    assert_eq!(bus.byte(0), 0, "time registers untouched");
}

#[test]
fn storage_does_not_touch_time_registers() {
    let mut drv = Ds1307::new(SimBus::new());
    drv.write_register(ds1307::registers::Register::Seconds, 0x33).unwrap();
    let data = vec![0xFF];
    drv.write_nvram(0, &data).unwrap();
    let bus = drv.release_i2c();
    assert_eq!(bus.byte(0), 0x33);
    assert_eq!(bus.byte(8), 0xFF);
}

#[test]
fn storage_bus_failure_surfaces_as_i2c_error() {
    let mut bus = SimBus::new();
    bus.fail_after(0);
    let mut drv = Ds1307::new(bus);
    let mut buf = vec![0u8; 4];
    assert!(matches!(drv.read_nvram(0, &mut buf), Err(Error::I2c(_))));
    let data = vec![9u8];
    let mut bus = drv.release_i2c();
    bus.fail_after(0);
    let mut drv = Ds1307::new(bus);
    assert!(matches!(drv.write_nvram(0, &data), Err(Error::I2c(_))));
}
