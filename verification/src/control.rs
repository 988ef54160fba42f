//! Oscillator power control: the clock-halt bit in the seconds register
//! stops timekeeping while set. Both operations are read-modify-write with
//! write avoidance, so repeating one issues a read but no second write.

use vstd::prelude::*;

use crate::bus::{BusFault, BusOp, I2cBus};
use crate::ds1307::{rmw_effect, rmw_failed, Ds1307};
use crate::error::Error;
use crate::registers::{Register, CH_BIT};

verus! {

impl<B: I2cBus> Ds1307<B> {
    /// Start or resume the oscillator by clearing the clock-halt bit, so
    /// timekeeping continues. Idempotent: already running, the device is
    /// read but not written.
    pub fn start_clock(&mut self) -> (r: Result<(), Error>)
        requires
            old(self).wf(),
        ensures
            final(self).wf(),
            r is Ok ==> rmw_effect(
                old(self).mem(),
                old(self).log(),
                final(self).mem(),
                final(self).log(),
                Register::Seconds.addr(),
                old(self).mem()[Register::Seconds.addr() as int] & !CH_BIT,
            ),
            r is Err ==> r == Err::<(), Error>(Error::I2c(BusFault)) && rmw_failed(
                old(self).mem(),
                old(self).log(),
                final(self).mem(),
                final(self).log(),
                Register::Seconds.addr(),
            ),
    {
        self.clear_register_bits(Register::Seconds, CH_BIT)
    }

    /// Halt the oscillator by setting the clock-halt bit, pausing
    /// timekeeping until restarted. Idempotent: already halted, the device
    /// is read but not written.
    pub fn halt_clock(&mut self) -> (r: Result<(), Error>)
        requires
            old(self).wf(),
        ensures
            final(self).wf(),
            r is Ok ==> rmw_effect(
                old(self).mem(),
                old(self).log(),
                final(self).mem(),
                final(self).log(),
                Register::Seconds.addr(),
                old(self).mem()[Register::Seconds.addr() as int] | CH_BIT,
            ),
            r is Err ==> r == Err::<(), Error>(Error::I2c(BusFault)) && rmw_failed(
                old(self).mem(),
                old(self).log(),
                final(self).mem(),
                final(self).log(),
                Register::Seconds.addr(),
            ),
    {
        self.set_register_bits(Register::Seconds, CH_BIT)
    }
}

/// Halting the clock twice in sequence: the first successful call writes
/// the clock-halt bit exactly when it was clear, and the second call only
/// reads — the bit is already set, so the read-modify-write
/// short-circuits and issues no write.
pub proof fn lemma_halt_clock_idempotent(
    m0: Seq<u8>,
    l0: Seq<BusOp>,
    m1: Seq<u8>,
    l1: Seq<BusOp>,
    m2: Seq<u8>,
    l2: Seq<BusOp>,
)
    requires
        m0.len() == 64,
        rmw_effect(m0, l0, m1, l1, 0, m0[0] | CH_BIT),
        rmw_effect(m1, l1, m2, l2, 0, m1[0] | CH_BIT),
    ensures
        m0[0] & CH_BIT == 0 ==> l1 == l0.push(BusOp::Read { reg: 0, data: seq![m0[0]] }).push(
            BusOp::Write { bytes: seq![0u8, (m0[0] | CH_BIT) as u8] },
        ),
        m0[0] & CH_BIT != 0 ==> l1 == l0.push(BusOp::Read { reg: 0, data: seq![m0[0]] }),
        l2 == l1.push(BusOp::Read { reg: 0, data: seq![m1[0]] }),
        m2 == m1,
{
    let c = m0[0];
    assert(c & CH_BIT == 0 <==> c | CH_BIT != c) by (bit_vector);
    assert(m1[0] == c | CH_BIT);
    assert((c | CH_BIT) | CH_BIT == c | CH_BIT) by (bit_vector);
    assert(m2 =~= m1.update(0, m1[0]));
    assert(m2 =~= m1);
}

} // verus!
