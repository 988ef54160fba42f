//! The two-wire bus the driver runs on: a trait the caller implements for
//! its peripheral, the way a hardware abstraction layer hands a driver its
//! bus.
//!
//! The trait models the transport together with the device behind it: a
//! 64-byte register space and a log of the transactions issued so far. Every
//! driver operation's contract is stated over these two, so a caller can see
//! which registers an operation touches and which transactions it issues.

use vstd::prelude::*;

verus! {

/// Opaque transport failure. The driver wraps it without inspecting it.
#[derive(Clone, Copy, PartialEq, Eq, Structural, Debug)]
pub struct BusFault;

/// One transaction on the bus, as recorded in the ghost log.
pub enum BusOp {
    /// An addressed burst write: `bytes[0]` is the start register, the rest
    /// the payload, stored at consecutive registers.
    Write { bytes: Seq<u8> },
    /// An addressed burst read: the register pointer written, then the
    /// bytes read back.
    Read { reg: u8, data: Seq<u8> },
}

/// Register contents after an addressed burst write lands: payload byte `i`
/// goes to register `bytes[0] + i`, every other register keeps its value.
pub open spec fn mem_after_write(mem: Seq<u8>, bytes: Seq<u8>) -> Seq<u8> {
    Seq::new(
        mem.len(),
        |a: int|
            if bytes[0] <= a && a < bytes[0] + bytes.len() - 1 {
                bytes[a - bytes[0] + 1]
            } else {
                mem[a]
            },
    )
}

/// Byte-addressed transport to the device, with the device's register space
/// behind it.
///
/// `mem` is the current contents of the 64-byte register space, `log` the
/// transactions issued so far, oldest first. A transaction either fully
/// completes or fails leaving both unchanged; the implementation decides
/// when a call fails.
pub trait I2cBus: Sized {
    /// Current contents of the device's register space.
    spec fn mem(&self) -> Seq<u8>;

    /// Every transaction issued so far, oldest first.
    spec fn log(&self) -> Seq<BusOp>;

    /// Issue one addressed burst write: `bytes[0]` is the target start
    /// register, `bytes[1..]` the payload, written as a single transaction
    /// under the device's auto-incrementing register pointer.
    fn bus_write(&mut self, bytes: &Vec<u8>) -> (r: Result<(), BusFault>)
        requires
            old(self).mem().len() == 64,
            1 <= bytes@.len(),
            bytes@.len() <= 65,
            bytes@[0] + bytes@.len() <= 65,
        ensures
            final(self).mem().len() == 64,
            r is Ok ==> final(self).mem() == mem_after_write(old(self).mem(), bytes@)
                && final(self).log() == old(self).log().push(BusOp::Write { bytes: bytes@ }),
            r is Err ==> final(self).mem() == old(self).mem()
                && final(self).log() == old(self).log(),
    ;

    /// Issue one addressed burst read filling `buf`, starting at register
    /// `reg`, under the device's auto-incrementing register pointer.
    fn bus_read(&mut self, reg: u8, buf: &mut Vec<u8>) -> (r: Result<(), BusFault>)
        requires
            old(self).mem().len() == 64,
            reg + old(buf)@.len() <= 64,
        ensures
            final(self).mem() == old(self).mem(),
            final(buf)@.len() == old(buf)@.len(),
            r is Ok ==> final(buf)@ == old(self).mem().subrange(
                reg as int,
                reg + old(buf)@.len(),
            ) && final(self).log() == old(self).log().push(
                BusOp::Read { reg, data: final(buf)@ },
            ),
            r is Err ==> final(self).log() == old(self).log(),
    ;
}

} // verus!
