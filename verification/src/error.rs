//! The driver's error taxonomy. Every failure surfaces to the caller on
//! first occurrence; nothing is retried and nothing is swallowed.

use vstd::prelude::*;

use crate::bus::BusFault;
use crate::datetime::DateTimeError;

verus! {

/// Driver errors.
#[derive(Clone, Copy, PartialEq, Eq, Structural, Debug)]
pub enum Error {
    /// Bus communication failure, wrapping the opaque transport fault.
    I2c(BusFault),
    /// Invalid register address. Reserved; no public operation produces it.
    InvalidAddress,
    /// The requested square-wave frequency is not one of the four rates the
    /// chip supports.
    UnsupportedSqwFrequency,
    /// Invalid date or time parameters.
    DateTime(DateTimeError),
    /// An auxiliary-storage access reaches past the 56-byte window.
    NvramOutOfBounds,
}

} // verus!
