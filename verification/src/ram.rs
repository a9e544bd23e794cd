//! Flat byte memory addressed by a 16-bit address.

use vstd::prelude::*;

verus! {

/// A flat, fixed-size byte memory. The CPU core uses one 64 KiB instance as
/// its whole address space when it runs a raw binary image.
pub struct RAM {
    bytes: Vec<u8>,
}

impl View for RAM {
    type V = Seq<u8>;

    closed spec fn view(&self) -> Seq<u8> {
        self.bytes@
    }
}

impl RAM {
    /// A zero-filled memory of `size` bytes.
    pub fn new(size: usize) -> (r: RAM)
        ensures
            r@.len() == size,
            forall|i: int| 0 <= i < size ==> r@[i] == 0u8,
    {
        let mut bytes: Vec<u8> = Vec::new();
        let mut i: usize = 0;
        while i < size
            invariant
                i <= size,
                bytes@.len() == i,
                forall|j: int| 0 <= j < i ==> bytes@[j] == 0u8,
            decreases size - i,
        {
            bytes.push(0);
            i = i + 1;
        }
        RAM { bytes }
    }

    /// Copies `data` into memory starting at offset `start`.
    pub fn fill(&mut self, start: usize, data: &Vec<u8>)
        requires
            start + data@.len() <= old(self)@.len(),
        ensures
            final(self)@.len() == old(self)@.len(),
            forall|i: int|
                start <= i < start + data@.len() ==> final(self)@[i] == data@[i - start],
            forall|i: int|
                0 <= i < old(self)@.len() && !(start <= i < start + data@.len())
                    ==> final(self)@[i] == old(self)@[i],
    {
        let n: usize = self.bytes.len();
        let mut i: usize = 0;
        while i < data.len()
            invariant
                i <= data@.len(),
                start + data@.len() <= n,
                start + data@.len() <= self@.len(),
                self@.len() == old(self)@.len(),
                forall|j: int| start <= j < start + i ==> self@[j] == data@[j - start],
                forall|j: int|
                    0 <= j < old(self)@.len() && !(start <= j < start + i)
                        ==> self@[j] == old(self)@[j],
            decreases data@.len() - i,
        {
            let v = data[i];
            self.bytes.set(start + i, v);
            i = i + 1;
        }
    }

    /// The byte at address `a`.
    #[inline]
    pub fn read(&self, a: u16) -> (r: u8)
        requires
            (a as int) < self@.len(),
        ensures
            r == self@[a as int],
    {
        self.bytes[a as usize]
    }

    /// Stores `v` at address `a`.
    #[inline]
    pub fn write(&mut self, a: u16, v: u8)
        requires
            (a as int) < old(self)@.len(),
        ensures
            final(self)@ == old(self)@.update(a as int, v),
    {
        self.bytes.set(a as usize, v);
    }
}

} // verus!
