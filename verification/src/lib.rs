//! Register-level driver for the DS1307 real-time clock.
//!
//! The driver talks to the chip over a two-wire serial bus, abstracted by the
//! [`bus::I2cBus`] trait: single-byte and burst transactions addressed by
//! register. On top of the transaction primitives sit a read-modify-write
//! bit-field editor with write avoidance, a packed-BCD time codec for the
//! seven time registers, square-wave output control, oscillator power
//! control, and access to the 56-byte auxiliary storage window.
//!
//! Every operation's effect on the device's register space and on the
//! sequence of bus transactions it issues is stated in its contract.

pub mod bcd;
pub mod bus;
pub mod control;
pub mod datetime;
pub mod ds1307;
pub mod error;
pub mod nvram;
pub mod registers;
pub mod sim;
pub mod square_wave;
