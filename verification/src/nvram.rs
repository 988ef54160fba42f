//! Auxiliary byte storage: a 56-byte scratch window behind the time and
//! control registers, addressed by an offset 0 to 55. Bounds are checked
//! before any bus transaction, and an empty read or write is a no-op that
//! touches the bus not at all.

use vstd::prelude::*;

use crate::bus::{mem_after_write, BusFault, BusOp, I2cBus};
use crate::ds1307::Ds1307;
use crate::error::Error;
use crate::registers::{NVRAM_SIZE, NVRAM_START};

verus! {

/// Whether an access of `len` bytes at `offset` stays inside the 56-byte
/// storage window.
pub open spec fn nvram_in_bounds(offset: u8, len: int) -> bool {
    offset < NVRAM_SIZE && offset + len <= NVRAM_SIZE
}

impl<B: I2cBus> Ds1307<B> {
    /// Check that an access of `len` bytes at `offset` stays inside the
    /// storage window, rejecting it with `NvramOutOfBounds` otherwise.
    pub fn validate_nvram_bounds(&self, offset: u8, len: usize) -> (r: Result<(), Error>)
        ensures
            r is Ok <==> nvram_in_bounds(offset, len as int),
            r is Err ==> r == Err::<(), Error>(Error::NvramOutOfBounds),
    {
        if offset >= NVRAM_SIZE {
            return Err(Error::NvramOutOfBounds);
        }
        let remaining_space = NVRAM_SIZE - offset;
        if len > remaining_space as usize {
            return Err(Error::NvramOutOfBounds);
        }
        Ok(())
    }

    /// Fill `buffer` from storage starting at `offset`, in one burst read.
    /// An empty buffer succeeds without touching the bus; bounds are
    /// checked before any transaction.
    pub fn read_nvram(&mut self, offset: u8, buffer: &mut Vec<u8>) -> (r: Result<(), Error>)
        requires
            old(self).wf(),
        ensures
            final(self).wf(),
            final(self).mem() == old(self).mem(),
            final(buffer)@.len() == old(buffer)@.len(),
            old(buffer)@.len() == 0 ==> r is Ok && final(self).log() == old(self).log() && final(buffer)@ == old(buffer)@,
            old(buffer)@.len() > 0 && !nvram_in_bounds(offset, old(buffer)@.len() as int) ==> r
                == Err::<(), Error>(Error::NvramOutOfBounds) && final(self).log() == old(self).log() && final(buffer)@ == old(buffer)@,
            r is Ok && old(buffer)@.len() > 0 ==> nvram_in_bounds(offset, old(buffer)@.len() as int)
                && final(buffer)@ == old(self).mem().subrange(
                NVRAM_START + offset,
                NVRAM_START + offset + old(buffer)@.len(),
            ) && final(self).log() == old(self).log().push(
                BusOp::Read { reg: (NVRAM_START + offset) as u8, data: final(buffer)@ },
            ),
            r is Err && nvram_in_bounds(offset, old(buffer)@.len() as int) ==> r == Err::<
                (),
                Error,
            >(Error::I2c(BusFault)) && final(self).log() == old(self).log(),
    {
        if buffer.len() == 0 {
            return Ok(());
        }
        match self.validate_nvram_bounds(offset, buffer.len()) {
            Ok(()) => {},
            Err(e) => {
                return Err(e);
            },
        }
        let nvram_addr = NVRAM_START + offset;
        self.read_bytes_at_address(nvram_addr, buffer)
    }

    /// Write `data` into storage starting at `offset`, as one burst write
    /// of the target address followed by the payload. Empty data succeeds
    /// without touching the bus; bounds are checked before any transaction.
    pub fn write_nvram(&mut self, offset: u8, data: &Vec<u8>) -> (r: Result<(), Error>)
        requires
            old(self).wf(),
        ensures
            final(self).wf(),
            data@.len() == 0 ==> r is Ok && final(self).mem() == old(self).mem() && final(self).log() == old(self).log(),
            data@.len() > 0 && !nvram_in_bounds(offset, data@.len() as int) ==> r == Err::<
                (),
                Error,
            >(Error::NvramOutOfBounds) && final(self).mem() == old(self).mem() && final(self).log()
                == old(self).log(),
            r is Ok && data@.len() > 0 ==> nvram_in_bounds(offset, data@.len() as int) && final(self).mem() == mem_after_write(
                old(self).mem(),
                seq![(NVRAM_START + offset) as u8].add(data@),
            ) && final(self).log() == old(self).log().push(
                BusOp::Write { bytes: seq![(NVRAM_START + offset) as u8].add(data@) },
            ),
            r is Err && nvram_in_bounds(offset, data@.len() as int) ==> r == Err::<(), Error>(
                Error::I2c(BusFault),
            ) && final(self).mem() == old(self).mem() && final(self).log() == old(self).log(),
    {
        if data.len() == 0 {
            return Ok(());
        }
        match self.validate_nvram_bounds(offset, data.len()) {
            Ok(()) => {},
            Err(e) => {
                return Err(e);
            },
        }
        let nvram_addr = NVRAM_START + offset;
        let mut buffer: Vec<u8> = Vec::new();
        buffer.push(nvram_addr);
        proof {
            assert(buffer@ =~= seq![nvram_addr].add(data@.subrange(0, 0)));
        }
        let mut i: usize = 0;
        while i < data.len()
            invariant
                *self == *old(self),
                i <= data@.len(),
                data@.len() <= 56,
                buffer@ == seq![nvram_addr].add(data@.subrange(0, i as int)),
            decreases data@.len() - i,
        {
            buffer.push(data[i]);
            proof {
                assert(buffer@ =~= seq![nvram_addr].add(data@.subrange(0, i + 1)));
            }
            i += 1;
        }
        proof {
            assert(data@.subrange(0, data@.len() as int) =~= data@);
        }
        self.write_raw_bytes(&buffer)
    }

    /// Size of the auxiliary storage window in bytes.
    pub fn nvram_size(&self) -> (n: u16)
        ensures
            n == NVRAM_SIZE,
    {
        NVRAM_SIZE as u16
    }
}

} // verus!
