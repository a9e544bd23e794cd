//! Byte-addressed memories behind the PPU, and the trait that abstracts
//! them.

use vstd::prelude::*;

use crate::errors::EmuError;

verus! {

/// Byte-addressed memory as the PPU sees it.
///
/// An implementation models its observable state as `Self::V`; `read` and
/// `write` are pinned down exactly by the spec-level `read_model` and
/// `write_model` transitions, so code generic over `Memory` is verified
/// against each implementation's own model. A write may be rejected (a
/// ROM-backed region, for instance); the model says precisely when.
pub trait Memory: View + Sized {
    /// The implementation's internal invariant.
    spec fn inv(&self) -> bool;

    /// Model of `read`: the state after the read (a read may record
    /// bookkeeping, as the probe memory does).
    spec fn read_model(m: Self::V, addr: u16) -> Self::V;

    /// Model of `read`: the byte returned.
    spec fn read_value(m: Self::V, addr: u16) -> u8;

    /// Model of `write`: the next state, or the error a rejected write
    /// raises. A rejected write leaves the memory unchanged.
    spec fn write_model(m: Self::V, addr: u16, data: u8) -> Result<Self::V, EmuError>;

    fn read(&mut self, addr: u16) -> (r: u8)
        requires
            old(self).inv(),
        ensures
            final(self).inv(),
            final(self)@ == Self::read_model(old(self)@, addr),
            r == Self::read_value(old(self)@, addr),
    ;

    fn write(&mut self, addr: u16, data: u8) -> (r: Result<(), EmuError>)
        requires
            old(self).inv(),
        ensures
            final(self).inv(),
            match Self::write_model(old(self)@, addr, data) {
                Ok(m) => r is Ok && final(self)@ == m,
                Err(e) => r == Err::<(), EmuError>(e) && final(self)@ == old(self)@,
            },
    ;
}

/// A plain zero-initialized byte store. Reads outside its size return 0 and
/// writes outside it are dropped, so the type is total over the 16-bit
/// address space whatever its size.
pub struct Ram {
    bytes: Vec<u8>,
}

impl View for Ram {
    type V = Seq<u8>;

    closed spec fn view(&self) -> Seq<u8> {
        self.bytes@
    }
}

impl Ram {
    /// A zero-filled store of `size` bytes.
    pub fn new(size: usize) -> (r: Ram)
        ensures
            r@.len() == size,
            forall|i: int| 0 <= i < size ==> r@[i] == 0u8,
    {
        let mut bytes: Vec<u8> = Vec::new();
        let mut i: usize = 0;
        while i < size
            invariant
                i <= size,
                bytes@.len() == i,
                forall|j: int| 0 <= j < i ==> bytes@[j] == 0u8,
            decreases size - i,
        {
            bytes.push(0);
            i = i + 1;
        }
        Ram { bytes }
    }

    /// The number of bytes the store holds.
    pub fn size(&self) -> (r: usize)
        ensures
            r == self@.len(),
    {
        self.bytes.len()
    }

    /// The byte at `addr` without touching the store: 0 outside its size.
    pub fn get(&self, addr: u16) -> (r: u8)
        ensures
            r == (if (addr as int) < self@.len() {
                self@[addr as int]
            } else {
                0u8
            }),
    {
        if (addr as usize) < self.bytes.len() {
            self.bytes[addr as usize]
        } else {
            0
        }
    }
}

impl Memory for Ram {
    open spec fn inv(&self) -> bool {
        true
    }

    open spec fn read_model(m: Seq<u8>, addr: u16) -> Seq<u8> {
        m
    }

    open spec fn read_value(m: Seq<u8>, addr: u16) -> u8 {
        if (addr as int) < m.len() {
            m[addr as int]
        } else {
            0u8
        }
    }

    open spec fn write_model(m: Seq<u8>, addr: u16, data: u8) -> Result<Seq<u8>, EmuError> {
        if (addr as int) < m.len() {
            Ok(m.update(addr as int, data))
        } else {
            Ok(m)
        }
    }

    fn read(&mut self, addr: u16) -> (r: u8) {
        proof {
            // Name the model's two results here so the postcondition
            // connects to them.
            assert(self@ == <Ram as Memory>::read_model(self@, addr));
            assert(<Ram as Memory>::read_value(self@, addr) == (if (addr as int) < self@.len() {
                self@[addr as int]
            } else {
                0u8
            }));
        }
        if (addr as usize) < self.bytes.len() {
            self.bytes[addr as usize]
        } else {
            0
        }
    }

    fn write(&mut self, addr: u16, data: u8) -> (r: Result<(), EmuError>) {
        if (addr as usize) < self.bytes.len() {
            self.bytes.set(addr as usize, data);
        }
        Ok(())
    }
}

/// The observable state of a [`DummyMemory`]: the most recent accesses.
pub ghost struct DummyV {
    pub last_read_addr: u16,
    pub last_write_addr: u16,
    pub last_write_value: u8,
}

/// A probe memory for exercising the PPU's register machinery: it records
/// the last access and answers every read with the low byte of the address.
pub struct DummyMemory {
    last_read_addr: u16,
    last_write_addr: u16,
    last_write_value: u8,
}

impl View for DummyMemory {
    type V = DummyV;

    closed spec fn view(&self) -> DummyV {
        DummyV {
            last_read_addr: self.last_read_addr,
            last_write_addr: self.last_write_addr,
            last_write_value: self.last_write_value,
        }
    }
}

impl DummyMemory {
    pub fn new() -> (r: DummyMemory)
        ensures
            r@ == (DummyV { last_read_addr: 0, last_write_addr: 0, last_write_value: 0 }),
    {
        DummyMemory { last_read_addr: 0, last_write_addr: 0, last_write_value: 0 }
    }

    /// The address of the most recent read.
    pub fn last_read_addr(&self) -> (r: u16)
        ensures
            r == self@.last_read_addr,
    {
        self.last_read_addr
    }

    /// The address of the most recent write.
    pub fn last_write_addr(&self) -> (r: u16)
        ensures
            r == self@.last_write_addr,
    {
        self.last_write_addr
    }

    /// The value of the most recent write.
    pub fn last_write_value(&self) -> (r: u8)
        ensures
            r == self@.last_write_value,
    {
        self.last_write_value
    }
}

impl Memory for DummyMemory {
    open spec fn inv(&self) -> bool {
        true
    }

    open spec fn read_model(m: DummyV, addr: u16) -> DummyV {
        DummyV { last_read_addr: addr, ..m }
    }

    open spec fn read_value(m: DummyV, addr: u16) -> u8 {
        (addr % 256) as u8
    }

    open spec fn write_model(m: DummyV, addr: u16, data: u8) -> Result<DummyV, EmuError> {
        Ok(DummyV { last_write_addr: addr, last_write_value: data, ..m })
    }

    fn read(&mut self, addr: u16) -> (r: u8) {
        self.last_read_addr = addr;
        (addr % 256) as u8
    }

    fn write(&mut self, addr: u16, data: u8) -> (r: Result<(), EmuError>) {
        self.last_write_addr = addr;
        self.last_write_value = data;
        Ok(())
    }
}

} // verus!
