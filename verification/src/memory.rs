//! Bounded, byte-addressable storage: the `Addressable` capability
//! interface and its default linear backing implementation.

use vstd::prelude::*;

verus! {

/// The 16-bit word stored as two consecutive bytes, low byte first.
pub open spec fn word_of_bytes(lo: u8, hi: u8) -> u16 {
    (lo as u16) | ((hi as u16) << 8)
}

/// The low byte of a 16-bit word.
pub open spec fn low_byte(w: u16) -> u8 {
    (w & 0xff) as u8
}

/// The high byte of a 16-bit word.
pub open spec fn high_byte(w: u16) -> u8 {
    (w >> 8) as u8
}

/// Splitting a word into bytes and reassembling it gives the word back.
pub proof fn lemma_word_bytes_roundtrip(w: u16)
    ensures
        word_of_bytes(low_byte(w), high_byte(w)) == w,
{
    assert((((w & 0xff) as u8) as u16) | ((((w >> 8) as u8) as u16) << 8) == w) by (bit_vector);
}

/// What a 2-byte read at `addr` yields from memory contents `mem`:
/// the low-byte-first word at `addr`, or nothing when even one of the
/// two cells lies out of range.
pub open spec fn mem_read2(mem: Seq<u8>, addr: u16) -> Option<u16> {
    if addr as int + 1 < mem.len() {
        Some(word_of_bytes(mem[addr as int], mem[addr as int + 1]))
    } else {
        None
    }
}

/// Memory contents after a 2-byte write of `w` at `addr` (meaningful
/// only when both cells are in range).
pub open spec fn mem_write2(mem: Seq<u8>, addr: u16, w: u16) -> Seq<u8> {
    mem.update(addr as int, low_byte(w)).update(addr as int + 1, high_byte(w))
}

/// A bounded, byte-addressable address space. Every accessor reports
/// failure on an out-of-range address instead of trapping; a 2-byte
/// access touches two consecutive 1-byte cells, low byte first.
///
/// The space holds at most 0xffff bytes, so the address one past a
/// successful word access always fits in 16 bits.
pub trait Addressable: Sized {
    /// The current contents, one entry per byte cell.
    spec fn mem(&self) -> Seq<u8>;

    /// Read the byte at `addr`; fails exactly on out-of-range addresses.
    fn read1(&self, addr: u16) -> (r: Option<u8>)
        ensures
            r == (if (addr as int) < self.mem().len() {
                Some(self.mem()[addr as int])
            } else {
                None::<u8>
            }),
    ;

    /// Write the byte at `addr`; fails exactly on out-of-range addresses,
    /// leaving the contents unchanged.
    fn write1(&mut self, addr: u16, v: u8) -> (ok: bool)
        ensures
            ok == ((addr as int) < old(self).mem().len()),
            final(self).mem() == (if (addr as int) < old(self).mem().len() {
                old(self).mem().update(addr as int, v)
            } else {
                old(self).mem()
            }),
    ;

    /// Read the 16-bit word whose bytes sit at `addr` and `addr + 1`.
    /// The address range holds at most 0xffff cells, so after a
    /// successful read the address two past `addr` still fits in 16 bits.
    fn read2(&self, addr: u16) -> (r: Option<u16>)
        ensures
            r == mem_read2(self.mem(), addr),
            r is Some ==> (addr as int) + 1 < 0xffff,
    ;

    /// Write the 16-bit word `v` as two bytes at `addr` and `addr + 1`;
    /// fails cleanly, changing nothing, unless both cells are in range.
    /// The address range holds at most 0xffff cells, so after a
    /// successful write the address two past `addr` still fits in 16 bits.
    fn write2(&mut self, addr: u16, v: u16) -> (ok: bool)
        ensures
            ok == ((addr as int) + 1 < old(self).mem().len()),
            ok ==> (addr as int) + 1 < 0xffff,
            final(self).mem() == (if (addr as int) + 1 < old(self).mem().len() {
                mem_write2(old(self).mem(), addr, v)
            } else {
                old(self).mem()
            }),
    ;

    /// Bulk initialization: copy `data` into the cells starting at `at`.
    /// Fails, changing nothing, unless the whole image fits.
    fn load_from_vec(&mut self, data: &Vec<u8>, at: u16) -> (ok: bool)
        ensures
            ok == ((at as int) + data@.len() <= old(self).mem().len()),
            final(self).mem().len() == old(self).mem().len(),
            ok ==> forall|i: int|
                0 <= i < old(self).mem().len() ==> final(self).mem()[i] == (if (at as int) <= i
                    < (at as int) + data@.len() {
                    data@[i - at as int]
                } else {
                    old(self).mem()[i]
                }),
            !ok ==> final(self).mem() == old(self).mem(),
    ;
}

/// The default backing store: a linear, pre-allocated run of bytes.
pub struct LinearMemory {
    bytes: Vec<u8>,
}

impl LinearMemory {
    /// The bounded address range, kept below 0x10000 cells so that the
    /// address one past a successful word access still fits in 16 bits.
    #[verifier::type_invariant]
    spec fn bounded(self) -> bool {
        self.bytes@.len() <= 0xffff
    }

    /// A fresh store of `size` zeroed cells.
    pub fn new(size: usize) -> (m: LinearMemory)
        requires
            size <= 0xffff,
        ensures
            m.mem().len() == size,
            forall|i: int| 0 <= i < size ==> m.mem()[i] == 0,
    {
        let mut bytes: Vec<u8> = Vec::new();
        while bytes.len() < size
            invariant
                bytes@.len() <= size,
                forall|i: int| 0 <= i < bytes@.len() ==> bytes@[i] == 0,
            decreases size - bytes@.len(),
        {
            bytes.push(0);
        }
        LinearMemory { bytes }
    }
}

impl Addressable for LinearMemory {
    closed spec fn mem(&self) -> Seq<u8> {
        self.bytes@
    }

    fn read1(&self, addr: u16) -> (r: Option<u8>)
        ensures
            r == (if (addr as int) < self.mem().len() {
                Some(self.mem()[addr as int])
            } else {
                None::<u8>
            }),
    {
        if (addr as usize) < self.bytes.len() {
            Some(self.bytes[addr as usize])
        } else {
            None
        }
    }

    fn write1(&mut self, addr: u16, v: u8) -> (ok: bool)
        ensures
            ok == ((addr as int) < old(self).mem().len()),
            final(self).mem() == (if (addr as int) < old(self).mem().len() {
                old(self).mem().update(addr as int, v)
            } else {
                old(self).mem()
            }),
    {
        proof {
            use_type_invariant(&*self);
        }
        if (addr as usize) < self.bytes.len() {
            self.bytes[addr as usize] = v;
            true
        } else {
            false
        }
    }

    fn read2(&self, addr: u16) -> (r: Option<u16>)
        ensures
            r == mem_read2(self.mem(), addr),
            r is Some ==> (addr as int) + 1 < 0xffff,
    {
        proof {
            use_type_invariant(self);
        }
        if (addr as usize) + 1 < self.bytes.len() {
            let lo = self.bytes[addr as usize];
            let hi = self.bytes[addr as usize + 1];
            Some((lo as u16) | ((hi as u16) << 8u16))
        } else {
            None
        }
    }

    fn write2(&mut self, addr: u16, v: u16) -> (ok: bool)
        ensures
            ok == ((addr as int) + 1 < old(self).mem().len()),
            ok ==> (addr as int) + 1 < 0xffff,
            final(self).mem() == (if (addr as int) + 1 < old(self).mem().len() {
                mem_write2(old(self).mem(), addr, v)
            } else {
                old(self).mem()
            }),
    {
        proof {
            use_type_invariant(&*self);
        }
        if (addr as usize) + 1 < self.bytes.len() {
            self.bytes[addr as usize] = (v & 0xff) as u8;
            self.bytes[addr as usize + 1] = (v >> 8u16) as u8;
            true
        } else {
            false
        }
    }

    fn load_from_vec(&mut self, data: &Vec<u8>, at: u16) -> (ok: bool)
        ensures
            ok == ((at as int) + data@.len() <= old(self).mem().len()),
            final(self).mem().len() == old(self).mem().len(),
            ok ==> forall|i: int|
                0 <= i < old(self).mem().len() ==> final(self).mem()[i] == (if (at as int) <= i
                    < (at as int) + data@.len() {
                    data@[i - at as int]
                } else {
                    old(self).mem()[i]
                }),
            !ok ==> final(self).mem() == old(self).mem(),
    {
        proof {
            use_type_invariant(&*self);
        }
        if data.len() > self.bytes.len() || (at as usize) > self.bytes.len() - data.len() {
            return false;
        }
        let mut k: usize = 0;
        while k < data.len()
            invariant
                k <= data@.len(),
                at as int + data@.len() <= self.bytes@.len(),
                self.bytes@.len() <= 0xffff,
                self.bytes@.len() == old(self).mem().len(),
                forall|i: int|
                    0 <= i < self.bytes@.len() ==> self.bytes@[i] == (if (at as int) <= i
                        < (at as int) + k {
                        data@[i - at as int]
                    } else {
                        old(self).mem()[i]
                    }),
            decreases data@.len() - k,
        {
            self.bytes[at as usize + k] = data[k];
            k = k + 1;
        }
        true
    }
}

} // verus!
