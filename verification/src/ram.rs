//! The CPU's 2 KiB internal RAM, mirrored through $0000-$1FFF.
use vstd::prelude::*;

verus! {

/// Size of the CPU's internal RAM.
pub const RAM_SIZE: usize = 2048;

/// The CPU's internal RAM.
pub struct Memory {
    pub ram: Vec<u8>,
}

/// Whether a CPU address falls in the RAM region (or one of its mirrors).
pub open spec fn in_ram(addr: u16) -> bool {
    addr <= 0x1FFF
}

/// The index in RAM that a CPU address maps to.
pub open spec fn ram_index(addr: u16) -> int {
    (addr % 2048) as int
}

/// The byte a read of `addr` gives when the RAM holds `ram`.
pub open spec fn ram_read(ram: Seq<u8>, addr: u16) -> u8 {
    if in_ram(addr) {
        ram[ram_index(addr)]
    } else {
        0
    }
}

/// The RAM contents after a write of `data` to `addr`.
pub open spec fn ram_write(ram: Seq<u8>, addr: u16, data: u8) -> Seq<u8> {
    if in_ram(addr) {
        ram.update(ram_index(addr), data)
    } else {
        ram
    }
}

impl Memory {
    /// The RAM has its fixed size.
    pub open spec fn wf(&self) -> bool {
        self.ram@.len() == RAM_SIZE
    }

    pub(crate) fn new() -> (r: Self)
        ensures
            r.wf(),
            r.ram@ == Seq::new(RAM_SIZE as nat, |i: int| 0u8),
    {
        Self { ram: vec![0u8; RAM_SIZE] }
    }

    pub(crate) fn read(&self, addr: u16) -> (r: u8)
        requires
            self.ram@.len() >= RAM_SIZE,
        ensures
            r == ram_read(self.ram@, addr),
    {
        if addr <= 0x07FF {
            self.ram[addr as usize]
        } else if addr <= 0x1FFF {
            self.ram[(addr % 2048) as usize]
        } else {
            0
        }
    }

    pub(crate) fn write(&mut self, addr: u16, data: u8)
        requires
            old(self).ram@.len() >= RAM_SIZE,
        ensures
            final(self).ram@.len() == old(self).ram@.len(),
            final(self).ram@ == ram_write(old(self).ram@, addr, data),
    {
        if addr <= 0x07FF {
            self.ram.set(addr as usize, data);
        } else if addr <= 0x1FFF {
            self.ram.set((addr % 2048) as usize, data);
        }
    }
}

/// A read of a RAM address gives back the last byte written to it or to any
/// of its mirrors; a write leaves every address outside its mirror class,
/// and every address outside RAM, as it was.
pub proof fn lemma_ram_read_after_write(ram: Seq<u8>, addr: u16, data: u8, other: u16)
    requires
        ram.len() == RAM_SIZE,
    ensures
        in_ram(addr) && in_ram(other) && ram_index(other) == ram_index(addr) ==> ram_read(
            ram_write(ram, addr, data),
            other,
        ) == data,
        !(in_ram(addr) && in_ram(other) && ram_index(other) == ram_index(addr)) ==> ram_read(
            ram_write(ram, addr, data),
            other,
        ) == ram_read(ram, other),
        ram_write(ram, addr, data).len() == RAM_SIZE,
{
}

} // verus!
