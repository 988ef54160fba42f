//! Square-wave output control: the chip can drive its output pin at one of
//! four rates chosen by the two rate-select bits of the control register,
//! gated by the square-wave-enable bit. Every operation is read-modify-write
//! with write avoidance, and frequency validation happens before any bus
//! transaction is issued.

use vstd::prelude::*;

use crate::bus::{BusFault, I2cBus};
use crate::ds1307::{rmw_effect, rmw_failed, Ds1307};
use crate::error::Error;
use crate::registers::{Register, OUT_BIT, RS_MASK, SQWE_BIT};

verus! {

/// Square-wave output frequencies a caller can ask for. Only the four
/// fixed rates of this chip are supported by the driver.
#[derive(Clone, Copy, PartialEq, Eq, Structural, Debug)]
pub enum SquareWaveFreq {
    /// 1 Hz.
    Hz1,
    /// 1.024 kHz; not supported by this chip.
    Hz1024,
    /// 4.096 kHz.
    Hz4096,
    /// 8.192 kHz.
    Hz8192,
    /// 32.768 kHz.
    Hz32768,
    /// A free-form rate in Hz; not supported by this chip.
    Custom(u32),
}

/// The rate-select code for a frequency, `None` where the chip does not
/// support it.
pub open spec fn spec_freq_bits(freq: SquareWaveFreq) -> Option<u8> {
    match freq {
        SquareWaveFreq::Hz1 => Some(0b0000_0000u8),
        SquareWaveFreq::Hz4096 => Some(0b0000_0001u8),
        SquareWaveFreq::Hz8192 => Some(0b0000_0010u8),
        SquareWaveFreq::Hz32768 => Some(0b0000_0011u8),
        _ => None,
    }
}

/// Map a frequency to its rate-select code, rejecting rates the chip does
/// not support. Pure: issues no bus transaction.
pub fn freq_to_bits(freq: SquareWaveFreq) -> (r: Result<u8, Error>)
    ensures
        spec_freq_bits(freq) matches Some(b) ==> r == Ok::<u8, Error>(b),
        spec_freq_bits(freq) is None ==> r == Err::<u8, Error>(Error::UnsupportedSqwFrequency),
{
    match freq {
        SquareWaveFreq::Hz1 => Ok(0b0000_0000),
        SquareWaveFreq::Hz4096 => Ok(0b0000_0001),
        SquareWaveFreq::Hz8192 => Ok(0b0000_0010),
        SquareWaveFreq::Hz32768 => Ok(0b0000_0011),
        _ => Err(Error::UnsupportedSqwFrequency),
    }
}

impl<B: I2cBus> Ds1307<B> {
    /// Enable the square wave at the given frequency: replace the
    /// rate-select field, set enable, clear the static output bit, and
    /// write only where the control register would change. An unsupported
    /// frequency is rejected before any bus transaction.
    pub fn start_square_wave(&mut self, freq: SquareWaveFreq) -> (r: Result<(), Error>)
        requires
            old(self).wf(),
        ensures
            final(self).wf(),
            spec_freq_bits(freq) is None ==> r == Err::<(), Error>(
                Error::UnsupportedSqwFrequency,
            ) && final(self).mem() == old(self).mem() && final(self).log() == old(self).log(),
            r is Ok ==> (spec_freq_bits(freq) matches Some(bits) && rmw_effect(
                old(self).mem(),
                old(self).log(),
                final(self).mem(),
                final(self).log(),
                Register::Control.addr(),
                (((old(self).mem()[Register::Control.addr() as int] & !RS_MASK) | bits)
                    | SQWE_BIT) & !OUT_BIT,
            )),
            r is Err && spec_freq_bits(freq) is Some ==> r == Err::<(), Error>(
                Error::I2c(BusFault),
            ) && rmw_failed(
                old(self).mem(),
                old(self).log(),
                final(self).mem(),
                final(self).log(),
                Register::Control.addr(),
            ),
    {
        let rs_bits = match freq_to_bits(freq) {
            Ok(b) => b,
            Err(e) => {
                return Err(e);
            },
        };
        let current = match self.read_register(Register::Control) {
            Ok(v) => v,
            Err(e) => {
                return Err(e);
            },
        };
        let mut new_value = current;
        new_value &= !RS_MASK;
        new_value |= rs_bits;
        new_value |= SQWE_BIT;
        new_value &= !OUT_BIT;
        if new_value != current {
            self.write_register(Register::Control, new_value)
        } else {
            proof {
                old(self).lemma_wf_mem_len();
                assert(old(self).mem().update(Register::Control.addr() as int, new_value) =~= old(
                    self,
                ).mem());
            }
            Ok(())
        }
    }

    /// Enable the square wave at the frequency already selected, clearing
    /// the static output bit; written only where the control register
    /// would change.
    pub fn enable_square_wave(&mut self) -> (r: Result<(), Error>)
        requires
            old(self).wf(),
        ensures
            final(self).wf(),
            r is Ok ==> rmw_effect(
                old(self).mem(),
                old(self).log(),
                final(self).mem(),
                final(self).log(),
                Register::Control.addr(),
                (old(self).mem()[Register::Control.addr() as int] | SQWE_BIT) & !OUT_BIT,
            ),
            r is Err ==> r == Err::<(), Error>(Error::I2c(BusFault)) && rmw_failed(
                old(self).mem(),
                old(self).log(),
                final(self).mem(),
                final(self).log(),
                Register::Control.addr(),
            ),
    {
        let current = match self.read_register(Register::Control) {
            Ok(v) => v,
            Err(e) => {
                return Err(e);
            },
        };
        let mut new_value = current;
        new_value |= SQWE_BIT;
        new_value &= !OUT_BIT;
        if new_value != current {
            self.write_register(Register::Control, new_value)
        } else {
            proof {
                old(self).lemma_wf_mem_len();
                assert(old(self).mem().update(Register::Control.addr() as int, new_value) =~= old(
                    self,
                ).mem());
            }
            Ok(())
        }
    }

    /// Disable the square-wave output, leaving the frequency selection and
    /// the static output bit as they are.
    pub fn disable_square_wave(&mut self) -> (r: Result<(), Error>)
        requires
            old(self).wf(),
        ensures
            final(self).wf(),
            r is Ok ==> rmw_effect(
                old(self).mem(),
                old(self).log(),
                final(self).mem(),
                final(self).log(),
                Register::Control.addr(),
                old(self).mem()[Register::Control.addr() as int] & !SQWE_BIT,
            ),
            r is Err ==> r == Err::<(), Error>(Error::I2c(BusFault)) && rmw_failed(
                old(self).mem(),
                old(self).log(),
                final(self).mem(),
                final(self).log(),
                Register::Control.addr(),
            ),
    {
        self.clear_register_bits(Register::Control, SQWE_BIT)
    }

    /// Change the rate-select field without touching the enable or output
    /// bits; written only where the control register would change. An
    /// unsupported frequency is rejected before any bus transaction.
    pub fn set_square_wave_frequency(&mut self, freq: SquareWaveFreq) -> (r: Result<(), Error>)
        requires
            old(self).wf(),
        ensures
            final(self).wf(),
            spec_freq_bits(freq) is None ==> r == Err::<(), Error>(
                Error::UnsupportedSqwFrequency,
            ) && final(self).mem() == old(self).mem() && final(self).log() == old(self).log(),
            r is Ok ==> (spec_freq_bits(freq) matches Some(bits) && rmw_effect(
                old(self).mem(),
                old(self).log(),
                final(self).mem(),
                final(self).log(),
                Register::Control.addr(),
                (old(self).mem()[Register::Control.addr() as int] & !RS_MASK) | bits,
            )),
            r is Err && spec_freq_bits(freq) is Some ==> r == Err::<(), Error>(
                Error::I2c(BusFault),
            ) && rmw_failed(
                old(self).mem(),
                old(self).log(),
                final(self).mem(),
                final(self).log(),
                Register::Control.addr(),
            ),
    {
        let rs_bits = match freq_to_bits(freq) {
            Ok(b) => b,
            Err(e) => {
                return Err(e);
            },
        };
        let current = match self.read_register(Register::Control) {
            Ok(v) => v,
            Err(e) => {
                return Err(e);
            },
        };
        let mut new_value = current;
        new_value &= !RS_MASK;
        new_value |= rs_bits;
        if new_value != current {
            self.write_register(Register::Control, new_value)
        } else {
            proof {
                old(self).lemma_wf_mem_len();
                assert(old(self).mem().update(Register::Control.addr() as int, new_value) =~= old(
                    self,
                ).mem());
            }
            Ok(())
        }
    }
}

} // verus!
