//! The memory capability of the engine: byte reads and writes over the
//! 16-bit address space, and the flat 64 KiB memory that provides it.

use vstd::prelude::*;

verus! {

/// A byte-addressable memory. An implementation says in `reads` and
/// `writes` what an access returns and how it leaves the memory.
pub trait Memory: Sized {
    /// Whether a read at `addr` may return `value` and leave the memory
    /// as `next`. A memory that says nothing may answer anything.
    open spec fn reads(&self, addr: u16, value: u8, next: &Self) -> bool {
        true
    }

    /// Whether a write of `value` at `addr` may leave the memory as
    /// `next`. A memory that says nothing may end in any state.
    open spec fn writes(&self, addr: u16, value: u8, next: &Self) -> bool {
        true
    }

    /// Reads the byte at `addr`.
    fn read(&mut self, addr: u16) -> (value: u8)
        ensures
            old(self).reads(addr, value, final(self)),
    ;

    /// Writes `value` at `addr`.
    fn write(&mut self, addr: u16, value: u8)
        ensures
            old(self).writes(addr, value, final(self)),
    ;
}

/// 64 KiB of RAM with nothing mapped over it.
pub struct FlatMemory {
    ram: [u8; 65536],
}

impl View for FlatMemory {
    type V = Seq<u8>;

    /// The bytes of the memory, indexed by address.
    closed spec fn view(&self) -> Seq<u8> {
        self.ram@
    }
}

impl FlatMemory {
    /// A memory of 65536 zero bytes.
    pub fn new() -> (memory: Self)
        ensures
            memory@ == Seq::new(65536, |i: int| 0u8),
    {
        let memory = FlatMemory { ram: [0u8; 65536] };
        assert(memory@ =~= Seq::new(65536, |i: int| 0u8));
        memory
    }

    /// The memory always holds 65536 bytes.
    pub proof fn lemma_size(&self)
        ensures
            self@.len() == 65536,
    {
    }

    /// The byte at `addr`.
    pub fn load(&self, addr: u16) -> (value: u8)
        ensures
            value == self@[addr as int],
    {
        self.ram[addr as usize]
    }

    /// Stores `value` at `addr` and changes no other byte.
    pub fn store(&mut self, addr: u16, value: u8)
        ensures
            final(self)@ == old(self)@.update(addr as int, value),
    {
        self.ram[addr as usize] = value;
    }
}

impl Memory for FlatMemory {
    /// A read returns the byte stored at `addr` and changes nothing.
    open spec fn reads(&self, addr: u16, value: u8, next: &Self) -> bool {
        value == self@[addr as int] && next@ == self@
    }

    /// A write replaces the byte at `addr` and changes no other.
    open spec fn writes(&self, addr: u16, value: u8, next: &Self) -> bool {
        next@ == self@.update(addr as int, value)
    }

    fn read(&mut self, addr: u16) -> (value: u8) {
        self.load(addr)
    }

    fn write(&mut self, addr: u16, value: u8) {
        self.store(addr, value)
    }
}

} // verus!
