//! Register map of the chip: addresses, bit masks and the geometry of the
//! auxiliary storage window. Pure data, fixed by the datasheet.

use vstd::prelude::*;

verus! {

/// Fixed bus address of the device.
pub const I2C_ADDR: u8 = 0x68;

/// Clock-halt flag: bit 7 of the seconds register. While set, the
/// oscillator is stopped and timekeeping is paused.
pub const CH_BIT: u8 = 0x80;

/// Square-wave-enable flag: bit 4 of the control register.
pub const SQWE_BIT: u8 = 0x10;

/// Static output level: bit 7 of the control register. Drives the output
/// pin while the square wave is disabled.
pub const OUT_BIT: u8 = 0x80;

/// Rate-select field: bits 1-0 of the control register, choosing the
/// square-wave frequency.
pub const RS_MASK: u8 = 0x03;

/// First register of the auxiliary storage window.
pub const NVRAM_START: u8 = 0x08;

/// Number of bytes in the auxiliary storage window.
pub const NVRAM_SIZE: u8 = 56;

/// The device's named registers.
#[derive(Clone, Copy, PartialEq, Eq, Structural, Debug)]
pub enum Register {
    /// Clock-halt bit and BCD seconds.
    Seconds,
    /// BCD minutes.
    Minutes,
    /// Hour mode bit, AM/PM bit and BCD hours.
    Hours,
    /// BCD weekday, 1 = Sunday through 7 = Saturday.
    Weekday,
    /// BCD day of month.
    DayOfMonth,
    /// BCD month.
    Month,
    /// BCD two-digit year.
    Year,
    /// Output, square-wave-enable and rate-select bits.
    Control,
}

impl Register {
    /// Address of the register as laid out by the chip.
    pub open spec fn spec_addr(self) -> u8 {
        match self {
            Register::Seconds => 0x00,
            Register::Minutes => 0x01,
            Register::Hours => 0x02,
            Register::Weekday => 0x03,
            Register::DayOfMonth => 0x04,
            Register::Month => 0x05,
            Register::Year => 0x06,
            Register::Control => 0x07,
        }
    }

    /// Address of the register as laid out by the chip.
    #[verifier::when_used_as_spec(spec_addr)]
    pub fn addr(self) -> (r: u8)
        ensures
            r == self.spec_addr(),
    {
        match self {
            Register::Seconds => 0x00,
            Register::Minutes => 0x01,
            Register::Hours => 0x02,
            Register::Weekday => 0x03,
            Register::DayOfMonth => 0x04,
            Register::Month => 0x05,
            Register::Year => 0x06,
            Register::Control => 0x07,
        }
    }
}

} // verus!
