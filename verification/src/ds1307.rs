//! The driver type, its transaction primitives, and the read-modify-write
//! bit-field editor they support.
//!
//! The driver owns its transport for its whole lifetime and holds no other
//! state: every read-modify-write re-reads the authoritative byte from the
//! device before mutating it.

use vstd::prelude::*;

use crate::bus::{mem_after_write, BusFault, BusOp, I2cBus};
use crate::error::Error;
use crate::registers::{Register, OUT_BIT, SQWE_BIT};

verus! {

/// Driver for the DS1307 real-time clock, generic over the bus supplied by
/// the caller.
pub struct Ds1307<B> {
    bus: B,
}

/// Effect of a successful read-modify-write on register `addr` that
/// computed `new_value` from the current byte: one read transaction, then a
/// single-byte write exactly when the value would change, the rest of the
/// register space untouched.
pub open spec fn rmw_effect(
    pre_mem: Seq<u8>,
    pre_log: Seq<BusOp>,
    post_mem: Seq<u8>,
    post_log: Seq<BusOp>,
    addr: u8,
    new_value: u8,
) -> bool {
    let read_op = BusOp::Read { reg: addr, data: seq![pre_mem[addr as int]] };
    &&& post_mem == pre_mem.update(addr as int, new_value)
    &&& if new_value == pre_mem[addr as int] {
        post_log == pre_log.push(read_op)
    } else {
        post_log == pre_log.push(read_op).push(
            BusOp::Write { bytes: seq![addr, new_value] },
        )
    }
}

/// State a failed read-modify-write on register `addr` leaves behind: the
/// register space untouched, and at most the initial read in the log.
pub open spec fn rmw_failed(
    pre_mem: Seq<u8>,
    pre_log: Seq<BusOp>,
    post_mem: Seq<u8>,
    post_log: Seq<BusOp>,
    addr: u8,
) -> bool {
    &&& post_mem == pre_mem
    &&& (post_log == pre_log || post_log == pre_log.push(
        BusOp::Read { reg: addr, data: seq![pre_mem[addr as int]] },
    ))
}

impl<B: I2cBus> Ds1307<B> {
    /// Current contents of the device's register space, as the transport
    /// models it.
    pub closed spec fn mem(&self) -> Seq<u8> {
        self.bus.mem()
    }

    /// Every bus transaction issued so far, oldest first.
    pub closed spec fn log(&self) -> Seq<BusOp> {
        self.bus.log()
    }

    /// The transport models the full 64-byte register space.
    pub closed spec fn wf(&self) -> bool {
        self.bus.mem().len() == 64
    }

    /// A well-formed driver models the full 64-byte register space.
    pub proof fn lemma_wf_mem_len(&self)
        requires
            self.wf(),
        ensures
            self.mem().len() == 64,
    {
    }

    /// Take exclusive ownership of the bus and wrap it in a driver.
    pub fn new(bus: B) -> (d: Ds1307<B>)
        ensures
            d.mem() == bus.mem(),
            d.log() == bus.log(),
            d.wf() <==> bus.mem().len() == 64,
    {
        Ds1307 { bus }
    }

    /// Give the bus back to the caller, consuming the driver.
    pub fn release_i2c(self) -> (bus: B)
        ensures
            bus.mem() == self.mem(),
            bus.log() == self.log(),
    {
        self.bus
    }

    /// Write a single byte to a register: one addressed write transaction.
    pub fn write_register(&mut self, register: Register, value: u8) -> (r: Result<(), Error>)
        requires
            old(self).wf(),
        ensures
            final(self).wf(),
            r is Ok ==> final(self).mem() == old(self).mem().update(register.addr() as int, value)
                && final(self).log() == old(self).log().push(
                BusOp::Write { bytes: seq![register.addr(), value] },
            ),
            r is Err ==> r == Err::<(), Error>(Error::I2c(BusFault)) && final(self).mem() == old(self).mem() && final(self).log() == old(self).log(),
    {
        let mut frame: Vec<u8> = Vec::new();
        frame.push(register.addr());
        frame.push(value);
        match self.bus.bus_write(&frame) {
            Ok(()) => {
                proof {
                    assert(frame@ =~= seq![register.addr(), value]);
                    assert(self.mem() =~= old(self).mem().update(register.addr() as int, value));
                }
                Ok(())
            },
            Err(_) => Err(Error::I2c(BusFault)),
        }
    }

    /// Read a single byte from a register: one addressed read transaction.
    pub fn read_register(&mut self, register: Register) -> (r: Result<u8, Error>)
        requires
            old(self).wf(),
        ensures
            final(self).wf(),
            final(self).mem() == old(self).mem(),
            r matches Ok(v) ==> v == old(self).mem()[register.addr() as int] && final(self).log()
                == old(self).log().push(
                BusOp::Read { reg: register.addr(), data: seq![v] },
            ),
            r is Err ==> r == Err::<u8, Error>(Error::I2c(BusFault)) && final(self).log() == old(self).log(),
    {
        let mut data: Vec<u8> = Vec::new();
        data.push(0u8);
        match self.bus.bus_read(register.addr(), &mut data) {
            Ok(()) => {
                proof {
                    assert(data@[0] == old(self).mem()[register.addr() as int]);
                    assert(data@ =~= seq![data@[0]]);
                }
                Ok(data[0])
            },
            Err(_) => Err(Error::I2c(BusFault)),
        }
    }

    /// Read multiple bytes in one burst transaction, starting at a register.
    pub fn read_register_bytes(&mut self, register: Register, buffer: &mut Vec<u8>) -> (r: Result<
        (),
        Error,
    >)
        requires
            old(self).wf(),
            register.addr() + old(buffer)@.len() <= 64,
        ensures
            final(self).wf(),
            final(self).mem() == old(self).mem(),
            final(buffer)@.len() == old(buffer)@.len(),
            r is Ok ==> final(buffer)@ == old(self).mem().subrange(
                register.addr() as int,
                register.addr() + old(buffer)@.len(),
            ) && final(self).log() == old(self).log().push(
                BusOp::Read { reg: register.addr(), data: final(buffer)@ },
            ),
            r is Err ==> r == Err::<(), Error>(Error::I2c(BusFault)) && final(self).log() == old(self).log(),
    {
        match self.bus.bus_read(register.addr(), buffer) {
            Ok(()) => Ok(()),
            Err(_) => Err(Error::I2c(BusFault)),
        }
    }

    /// Read multiple bytes in one burst transaction, starting at a raw
    /// address outside the named registers, as auxiliary-storage access
    /// needs.
    pub fn read_bytes_at_address(&mut self, register_addr: u8, buffer: &mut Vec<u8>) -> (r: Result<
        (),
        Error,
    >)
        requires
            old(self).wf(),
            register_addr + old(buffer)@.len() <= 64,
        ensures
            final(self).wf(),
            final(self).mem() == old(self).mem(),
            final(buffer)@.len() == old(buffer)@.len(),
            r is Ok ==> final(buffer)@ == old(self).mem().subrange(
                register_addr as int,
                register_addr + old(buffer)@.len(),
            ) && final(self).log() == old(self).log().push(
                BusOp::Read { reg: register_addr, data: final(buffer)@ },
            ),
            r is Err ==> r == Err::<(), Error>(Error::I2c(BusFault)) && final(self).log() == old(self).log(),
    {
        match self.bus.bus_read(register_addr, buffer) {
            Ok(()) => Ok(()),
            Err(_) => Err(Error::I2c(BusFault)),
        }
    }

    /// Write raw bytes in one burst transaction: `data[0]` is the target
    /// start register, the rest the payload.
    pub fn write_raw_bytes(&mut self, data: &Vec<u8>) -> (r: Result<(), Error>)
        requires
            old(self).wf(),
            1 <= data@.len(),
            data@.len() <= 65,
            data@[0] + data@.len() <= 65,
        ensures
            final(self).wf(),
            r is Ok ==> final(self).mem() == mem_after_write(old(self).mem(), data@) && final(self).log() == old(self).log().push(BusOp::Write { bytes: data@ }),
            r is Err ==> r == Err::<(), Error>(Error::I2c(BusFault)) && final(self).mem() == old(self).mem() && final(self).log() == old(self).log(),
    {
        match self.bus.bus_write(data) {
            Ok(()) => Ok(()),
            Err(_) => Err(Error::I2c(BusFault)),
        }
    }

    /// Set the bits of `mask` in a register: read the current byte, and
    /// write the or of the two only where that differs, avoiding redundant
    /// writes.
    pub fn set_register_bits(&mut self, register: Register, mask: u8) -> (r: Result<(), Error>)
        requires
            old(self).wf(),
        ensures
            final(self).wf(),
            r is Ok ==> rmw_effect(
                old(self).mem(),
                old(self).log(),
                final(self).mem(),
                final(self).log(),
                register.addr(),
                old(self).mem()[register.addr() as int] | mask,
            ),
            r is Err ==> r == Err::<(), Error>(Error::I2c(BusFault)) && rmw_failed(
                old(self).mem(),
                old(self).log(),
                final(self).mem(),
                final(self).log(),
                register.addr(),
            ),
    {
        let current = match self.read_register(register) {
            Ok(v) => v,
            Err(e) => {
                return Err(e);
            },
        };
        let new_value = current | mask;
        if new_value != current {
            self.write_register(register, new_value)
        } else {
            proof {
                assert(old(self).mem().update(register.addr() as int, new_value) =~= old(self).mem());
            }
            Ok(())
        }
    }

    /// Clear the bits of `mask` in a register: read the current byte, and
    /// write the byte with those bits cleared only where that differs,
    /// avoiding redundant writes.
    pub fn clear_register_bits(&mut self, register: Register, mask: u8) -> (r: Result<(), Error>)
        requires
            old(self).wf(),
        ensures
            final(self).wf(),
            r is Ok ==> rmw_effect(
                old(self).mem(),
                old(self).log(),
                final(self).mem(),
                final(self).log(),
                register.addr(),
                old(self).mem()[register.addr() as int] & !mask,
            ),
            r is Err ==> r == Err::<(), Error>(Error::I2c(BusFault)) && rmw_failed(
                old(self).mem(),
                old(self).log(),
                final(self).mem(),
                final(self).log(),
                register.addr(),
            ),
    {
        let current = match self.read_register(register) {
            Ok(v) => v,
            Err(e) => {
                return Err(e);
            },
        };
        let new_value = current & !mask;
        if new_value != current {
            self.write_register(register, new_value)
        } else {
            proof {
                assert(old(self).mem().update(register.addr() as int, new_value) =~= old(self).mem());
            }
            Ok(())
        }
    }

    /// Drive the output pin to a static high level, disabling the square
    /// wave; written only where the control register would change.
    pub fn set_output_high(&mut self) -> (r: Result<(), Error>)
        requires
            old(self).wf(),
        ensures
            final(self).wf(),
            r is Ok ==> rmw_effect(
                old(self).mem(),
                old(self).log(),
                final(self).mem(),
                final(self).log(),
                Register::Control.addr(),
                (old(self).mem()[Register::Control.addr() as int] & !SQWE_BIT) | OUT_BIT,
            ),
            r is Err ==> r == Err::<(), Error>(Error::I2c(BusFault)) && rmw_failed(
                old(self).mem(),
                old(self).log(),
                final(self).mem(),
                final(self).log(),
                Register::Control.addr(),
            ),
    {
        let current = match self.read_register(Register::Control) {
            Ok(v) => v,
            Err(e) => {
                return Err(e);
            },
        };
        let mut new_value = current;
        new_value &= !SQWE_BIT;
        new_value |= OUT_BIT;
        if new_value != current {
            self.write_register(Register::Control, new_value)
        } else {
            proof {
                assert(old(self).mem().update(Register::Control.addr() as int, new_value) =~= old(self).mem());
            }
            Ok(())
        }
    }

    /// Drive the output pin to a static low level, disabling the square
    /// wave; written only where the control register would change.
    pub fn set_output_low(&mut self) -> (r: Result<(), Error>)
        requires
            old(self).wf(),
        ensures
            final(self).wf(),
            r is Ok ==> rmw_effect(
                old(self).mem(),
                old(self).log(),
                final(self).mem(),
                final(self).log(),
                Register::Control.addr(),
                (old(self).mem()[Register::Control.addr() as int] & !SQWE_BIT) & !OUT_BIT,
            ),
            r is Err ==> r == Err::<(), Error>(Error::I2c(BusFault)) && rmw_failed(
                old(self).mem(),
                old(self).log(),
                final(self).mem(),
                final(self).log(),
                Register::Control.addr(),
            ),
    {
        let current = match self.read_register(Register::Control) {
            Ok(v) => v,
            Err(e) => {
                return Err(e);
            },
        };
        let mut new_value = current;
        new_value &= !SQWE_BIT;
        new_value &= !OUT_BIT;
        if new_value != current {
            self.write_register(Register::Control, new_value)
        } else {
            proof {
                assert(old(self).mem().update(Register::Control.addr() as int, new_value) =~= old(self).mem());
            }
            Ok(())
        }
    }
}

} // verus!
