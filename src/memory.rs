use vstd::prelude::*;

use crate::fault::Fault;

verus! {

/// The 16-bit value of a big-endian byte pair: the byte at the lower address
/// is the high byte.
pub open spec fn be_word(hi: u8, lo: u8) -> u16 {
    (256 * hi as int + lo as int) as u16
}

/// The byte at `addr`, or the fault that reading it raises.
pub open spec fn byte_at(bytes: Seq<u8>, addr: int) -> Result<u8, Fault> {
    if 0 <= addr < bytes.len() {
        Ok(bytes[addr])
    } else {
        Err(Fault::OutOfBounds(addr as usize))
    }
}

/// The big-endian word at `addr` and `addr + 1`, or the fault raised by the
/// first of the two bytes that is out of range.
pub open spec fn word_at(bytes: Seq<u8>, addr: int) -> Result<u16, Fault> {
    if !(0 <= addr < bytes.len()) {
        Err(Fault::OutOfBounds(addr as usize))
    } else if addr + 1 >= bytes.len() {
        Err(Fault::OutOfBounds((addr + 1) as usize))
    } else {
        Ok(be_word(bytes[addr], bytes[addr + 1]))
    }
}

/// A flat byte-addressable memory. Every access is bounds-checked against the
/// current length; writes never grow it.
pub struct Memory {
    bytes: Vec<u8>,
}

impl View for Memory {
    type V = Seq<u8>;

    closed spec fn view(&self) -> Seq<u8> {
        self.bytes@
    }
}

impl Memory {
    /// An empty memory with room reserved for `capacity` bytes.
    pub fn with_capacity(capacity: usize) -> (r: Memory)
        ensures
            r@ == Seq::<u8>::empty(),
    {
        Memory { bytes: Vec::with_capacity(capacity) }
    }

    /// Current length in bytes.
    pub fn len(&self) -> (r: usize)
        ensures
            r == self@.len(),
    {
        self.bytes.len()
    }

    /// Appends `program` after the bytes already held.
    pub fn load(&mut self, program: &[u8])
        requires
            old(self)@.len() + program@.len() <= usize::MAX,
        ensures
            final(self)@ == old(self)@ + program@,
    {
        let mut i: usize = 0;
        while i < program.len()
            invariant
                i <= program@.len(),
                self@ == old(self)@ + program@.subrange(0, i as int),
            decreases program@.len() - i,
        {
            self.bytes.push(program[i]);
            proof {
                assert(self@ =~= old(self)@ + program@.subrange(0, i + 1));
            }
            i = i + 1;
        }
        proof {
            assert(program@.subrange(0, program@.len() as int) =~= program@);
        }
    }

    /// The byte at `addr`; `OutOfBounds(addr)` when `addr >= len`.
    pub fn read_u8(&self, addr: usize) -> (r: Result<u8, Fault>)
        ensures
            r == byte_at(self@, addr as int),
            addr >= self@.len() ==> r == Err::<u8, Fault>(Fault::OutOfBounds(addr)),
    {
        if addr < self.bytes.len() {
            Ok(self.bytes[addr])
        } else {
            Err(Fault::OutOfBounds(addr))
        }
    }

    /// The big-endian word at `addr` and `addr + 1`; `OutOfBounds` with the
    /// first address that is not below the length.
    pub fn read_u16(&self, addr: usize) -> (r: Result<u16, Fault>)
        ensures
            r == word_at(self@, addr as int),
    {
        if addr >= self.bytes.len() {
            Err(Fault::OutOfBounds(addr))
        } else if addr + 1 >= self.bytes.len() {
            Err(Fault::OutOfBounds(addr + 1))
        } else {
            let hi = self.bytes[addr];
            let lo = self.bytes[addr + 1];
            Ok((hi as u16) * 256 + lo as u16)
        }
    }

    /// Overwrites the byte at `addr`; `OutOfBounds(addr)`, with nothing
    /// written, when `addr >= len`.
    pub fn write_u8(&mut self, addr: usize, value: u8) -> (r: Result<(), Fault>)
        ensures
            addr < old(self)@.len() ==> r is Ok && final(self)@ == old(self)@.update(
                addr as int,
                value,
            ),
            addr >= old(self)@.len() ==> r == Err::<(), Fault>(Fault::OutOfBounds(addr))
                && final(self)@ == old(self)@,
    {
        if addr < self.bytes.len() {
            self.bytes.set(addr, value);
            Ok(())
        } else {
            Err(Fault::OutOfBounds(addr))
        }
    }

    /// Overwrites the bytes at `addr` and `addr + 1` with `value`, high byte
    /// first. When either address is not below the length nothing is written
    /// and the fault names the first such address.
    pub fn write_u16(&mut self, addr: usize, value: u16) -> (r: Result<(), Fault>)
        ensures
            match word_at(old(self)@, addr as int) {
                Ok(_) => r is Ok && final(self)@ == old(self)@.update(
                    addr as int,
                    (value / 256) as u8,
                ).update(addr + 1, (value % 256) as u8),
                Err(e) => r == Err::<(), Fault>(e) && final(self)@ == old(self)@,
            },
    {
        if addr >= self.bytes.len() {
            Err(Fault::OutOfBounds(addr))
        } else if addr + 1 >= self.bytes.len() {
            Err(Fault::OutOfBounds(addr + 1))
        } else {
            self.bytes.set(addr, (value / 256) as u8);
            self.bytes.set(addr + 1, (value % 256) as u8);
            Ok(())
        }
    }
}

/// A word written with `write_u16` reads back unchanged with `read_u16`.
pub proof fn lemma_word_round_trip(bytes: Seq<u8>, addr: int, value: u16)
    requires
        0 <= addr,
        addr + 1 < bytes.len(),
    ensures
        word_at(
            bytes.update(addr, (value / 256) as u8).update(addr + 1, (value % 256) as u8),
            addr,
        ) == Ok::<u16, Fault>(value),
{
}

} // verus!
