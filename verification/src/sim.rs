//! A simulated device on a simulated bus: a 64-byte register file with the
//! auto-incrementing address pointer the chip has, recording every
//! transaction. It implements [`I2cBus`] — verified against the trait's
//! contract — and is what the test suite drives the driver against. Failures
//! can be injected to exercise the driver's error paths.

use vstd::prelude::*;

use crate::bus::{mem_after_write, BusFault, BusOp, I2cBus};

verus! {

/// One recorded transaction, the executable twin of [`BusOp`].
pub enum SimOp {
    /// An addressed burst write: the full frame, address byte first.
    Write { bytes: Vec<u8> },
    /// An addressed burst read: the register pointer written, then the
    /// bytes read back.
    Read { reg: u8, data: Vec<u8> },
}

impl View for SimOp {
    type V = BusOp;

    closed spec fn view(&self) -> BusOp {
        match self {
            SimOp::Write { bytes } => BusOp::Write { bytes: bytes@ },
            SimOp::Read { reg, data } => BusOp::Read { reg: *reg, data: data@ },
        }
    }
}

/// Simulated bus and device: a register file, the transaction record, and
/// an optional injected failure.
pub struct SimBus {
    regs: Vec<u8>,
    ops: Vec<SimOp>,
    fail_in: Option<u64>,
}

impl SimBus {
    /// A device with every register zero and nothing on the record.
    pub fn new() -> (s: SimBus)
        ensures
            s.mem().len() == 64,
            forall|i: int| 0 <= i < 64 ==> s.mem()[i] == 0,
            s.log() == Seq::<BusOp>::empty(),
    {
        let mut regs: Vec<u8> = Vec::new();
        let mut i: usize = 0;
        while i < 64
            invariant
                i <= 64,
                regs@.len() == i,
                forall|j: int| 0 <= j < i ==> regs@[j] == 0,
            decreases 64 - i,
        {
            regs.push(0u8);
            i += 1;
        }
        let s = SimBus { regs, ops: Vec::new(), fail_in: None };
        proof {
            assert(s.log() =~= Seq::<BusOp>::empty());
        }
        s
    }

    /// Overwrite one register directly, behind the bus's back: stages
    /// device state without a transaction appearing on the record.
    pub fn set_byte(&mut self, addr: u8, value: u8)
        requires
            addr < 64,
            old(self).mem().len() == 64,
        ensures
            final(self).mem() == old(self).mem().update(addr as int, value),
            final(self).log() == old(self).log(),
    {
        self.regs.set(addr as usize, value);
    }

    /// Current value of one register.
    pub fn byte(&self, addr: u8) -> (v: u8)
        requires
            addr < 64,
            self.mem().len() == 64,
        ensures
            v == self.mem()[addr as int],
    {
        self.regs[addr as usize]
    }

    /// Number of transactions on the record.
    pub fn op_count(&self) -> (n: usize)
        ensures
            n == self.log().len(),
    {
        self.ops.len()
    }

    /// Whether transaction `i` is a write.
    pub fn op_is_write(&self, i: usize) -> (b: bool)
        requires
            i < self.log().len(),
        ensures
            b == (self.log()[i as int] is Write),
    {
        match &self.ops[i] {
            SimOp::Write { .. } => true,
            SimOp::Read { .. } => false,
        }
    }

    /// Length of transaction `i`'s bytes: the full frame of a write, the
    /// data read back by a read.
    pub fn op_len(&self, i: usize) -> (n: usize)
        requires
            i < self.log().len(),
        ensures
            self.log()[i as int] matches BusOp::Write { bytes } ==> n == bytes.len(),
            self.log()[i as int] matches BusOp::Read { data, .. } ==> n == data.len(),
    {
        match &self.ops[i] {
            SimOp::Write { bytes } => bytes.len(),
            SimOp::Read { data, .. } => data.len(),
        }
    }

    /// Byte `j` of transaction `i`: of the frame for a write, of the data
    /// read back for a read.
    pub fn op_byte(&self, i: usize, j: usize) -> (v: u8)
        requires
            i < self.log().len(),
            self.log()[i as int] matches BusOp::Write { bytes } ==> j < bytes.len(),
            self.log()[i as int] matches BusOp::Read { data, .. } ==> j < data.len(),
        ensures
            self.log()[i as int] matches BusOp::Write { bytes } ==> v == bytes[j as int],
            self.log()[i as int] matches BusOp::Read { data, .. } ==> v == data[j as int],
    {
        match &self.ops[i] {
            SimOp::Write { bytes } => bytes[j],
            SimOp::Read { data, .. } => data[j],
        }
    }

    /// The register pointer a read transaction was addressed to.
    pub fn op_reg(&self, i: usize) -> (v: u8)
        requires
            i < self.log().len(),
            self.log()[i as int] is Read,
        ensures
            self.log()[i as int] matches BusOp::Read { reg, .. } ==> v == reg,
    {
        match &self.ops[i] {
            SimOp::Write { .. } => 0,
            SimOp::Read { reg, .. } => *reg,
        }
    }

    /// Let the next `n` transactions succeed and fail the one after.
    pub fn fail_after(&mut self, n: u64)
        ensures
            final(self).mem() == old(self).mem(),
            final(self).log() == old(self).log(),
    {
        self.fail_in = Some(n);
    }

    /// Consume one tick of the injected failure: true when the current
    /// transaction is the one to fail.
    fn take_failure(&mut self) -> (fail: bool)
        ensures
            final(self).regs == old(self).regs,
            final(self).ops == old(self).ops,
    {
        match self.fail_in {
            Some(0) => {
                self.fail_in = None;
                true
            },
            Some(k) => {
                self.fail_in = Some((k - 1) as u64);
                false
            },
            None => false,
        }
    }
}

impl I2cBus for SimBus {
    closed spec fn mem(&self) -> Seq<u8> {
        self.regs@
    }

    closed spec fn log(&self) -> Seq<BusOp> {
        Seq::new(self.ops@.len(), |i: int| self.ops@[i]@)
    }

    fn bus_write(&mut self, bytes: &Vec<u8>) -> (r: Result<(), BusFault>) {
        if self.take_failure() {
            return Err(BusFault);
        }
        let ghost m0 = self.regs@;
        let ghost ops0 = self.ops@;
        let mut frame: Vec<u8> = Vec::new();
        let mut k: usize = 0;
        while k < bytes.len()
            invariant
                k <= bytes@.len(),
                frame@ == bytes@.subrange(0, k as int),
            decreases bytes@.len() - k,
        {
            frame.push(bytes[k]);
            proof {
                assert(frame@ =~= bytes@.subrange(0, k + 1));
            }
            k += 1;
        }
        proof {
            assert(bytes@.subrange(0, bytes@.len() as int) =~= bytes@);
        }
        let start = bytes[0] as usize;
        let mut i: usize = 1;
        while i < bytes.len()
            invariant
                1 <= i <= bytes@.len(),
                bytes@.len() <= 65,
                start == bytes@[0] as int,
                start + bytes@.len() <= 65,
                self.regs@.len() == 64,
                self.ops@ == ops0,
                m0.len() == 64,
                forall|a: int|
                    0 <= a < 64 ==> self.regs@[a] == (if start <= a && a < start + i - 1 {
                        bytes@[a - start + 1]
                    } else {
                        m0[a]
                    }),
            decreases bytes@.len() - i,
        {
            self.regs.set(start + i - 1, bytes[i]);
            i += 1;
        }
        self.ops.push(SimOp::Write { bytes: frame });
        proof {
            assert(self.mem() =~= mem_after_write(m0, bytes@));
            assert(self.log() =~= old(self).log().push(BusOp::Write { bytes: bytes@ }));
        }
        Ok(())
    }

    fn bus_read(&mut self, reg: u8, buf: &mut Vec<u8>) -> (r: Result<(), BusFault>) {
        if self.take_failure() {
            return Err(BusFault);
        }
        let ghost ops0 = self.ops@;
        let n = buf.len();
        let mut data: Vec<u8> = Vec::new();
        let mut i: usize = 0;
        while i < n
            invariant
                i <= n,
                reg + n <= 64,
                self.regs@.len() == 64,
                self.ops@ == ops0,
                data@ == self.regs@.subrange(reg as int, reg + i),
            decreases n - i,
        {
            data.push(self.regs[reg as usize + i]);
            proof {
                assert(data@ =~= self.regs@.subrange(reg as int, reg + i + 1));
            }
            i += 1;
        }
        let mut j: usize = 0;
        while j < n
            invariant
                j <= n,
                n == data@.len(),
                buf@.len() == n,
                self.regs@.len() == 64,
                self.ops@ == ops0,
                forall|t: int| 0 <= t < j ==> buf@[t] == data@[t],
            decreases n - j,
        {
            let v = data[j];
            buf.set(j, v);
            j += 1;
        }
        proof {
            assert(buf@ =~= data@);
        }
        self.ops.push(SimOp::Read { reg, data });
        proof {
            assert(self.log() =~= old(self).log().push(BusOp::Read { reg, data: buf@ }));
        }
        Ok(())
    }
}

} // verus!
