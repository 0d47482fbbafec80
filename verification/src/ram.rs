//! Fixed-capacity byte memories.

use vstd::prelude::*;

verus! {

/// A byte-addressed memory whose capacity is fixed when it is created.
pub struct Ram {
    ram: Vec<u8>,
}

impl View for Ram {
    type V = Seq<u8>;

    closed spec fn view(&self) -> Seq<u8> {
        self.ram@
    }
}

impl Ram {
    /// A memory of `capacity` bytes, all zero.
    pub fn new(capacity: usize) -> (ram: Ram)
        ensures
            ram@ == Seq::new(capacity as nat, |i: int| 0u8),
    {
        let mut ram: Vec<u8> = Vec::with_capacity(capacity);
        ram.resize(capacity, 0);
        assert(ram@ =~= Seq::new(capacity as nat, |i: int| 0u8));
        Ram { ram }
    }

    /// Stores `value` in the cell at `addr`; every other cell keeps its byte.
    pub fn write(&mut self, addr: usize, value: u8)
        requires
            addr < old(self)@.len(),
        ensures
            final(self)@ == old(self)@.update(addr as int, value),
    {
        self.ram[addr] = value;
    }

    /// The byte in the cell at `addr`.
    pub fn read(&self, addr: usize) -> (value: u8)
        requires
            addr < self@.len(),
        ensures
            value == self@[addr as int],
    {
        self.ram[addr]
    }

    /// The number of cells.
    pub fn capacity(&self) -> (n: usize)
        ensures
            n == self@.len(),
    {
        self.ram.len()
    }
}

impl Default for Ram {
    /// A memory without any cell.
    fn default() -> (ram: Ram)
        ensures
            ram@ == Seq::<u8>::empty(),
    {
        Ram { ram: Vec::new() }
    }
}

} // verus!
