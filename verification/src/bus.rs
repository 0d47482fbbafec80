//! The address decoder: one 16-bit address space over the cartridge, the three
//! memories, the peripheral registers and the two interrupt registers.

use crate::fault::Fault;
use crate::io::io::IO;
use crate::ram::Ram;
use vstd::prelude::*;

verus! {

/// First address past the cartridge, which starts at address 0.
pub const ROM_END: u16 = 0x8000;

/// First address of video memory.
pub const VRAM_START: u16 = 0x8000;

/// First address past video memory.
pub const VRAM_END: u16 = 0xA000;

/// First address of work memory.
pub const WRAM_START: u16 = 0xC000;

/// First address past work memory.
pub const WRAM_END: u16 = 0xE000;

/// First address of the peripheral registers.
pub const IO_START: u16 = 0xFF00;

/// First address past the peripheral registers.
pub const IO_END: u16 = 0xFF80;

/// First address of high memory.
pub const HRAM_START: u16 = 0xFF80;

/// First address past high memory.
pub const HRAM_END: u16 = 0xFFFF;

/// Address of the interrupt-flag register: the interrupts that are pending.
pub const IF: u16 = 0xFF0F;

/// Address of the interrupt-enable register.
pub const IE: u16 = 0xFFFF;

/// Whether `addr` leads to a cell, given how many bytes the cartridge and
/// each memory hold. A region shorter than its address range leaves the rest
/// of the range unmapped.
pub open spec fn is_mapped(addr: u16, rom: nat, wram: nat, hram: nat, vram: nat) -> bool {
    if addr < ROM_END {
        addr < rom
    } else if WRAM_START <= addr < WRAM_END {
        addr - WRAM_START < wram
    } else if HRAM_START <= addr < HRAM_END {
        addr - HRAM_START < hram
    } else if VRAM_START <= addr < VRAM_END {
        addr - VRAM_START < vram
    } else {
        addr == IE || IO_START <= addr < IO_END
    }
}

/// The byte that the address space shows at a mapped address.
pub open spec fn cell_at(
    addr: u16,
    rom: Seq<u8>,
    wram: Seq<u8>,
    hram: Seq<u8>,
    vram: Seq<u8>,
    io: Seq<u8>,
    ie: u8,
    iflag: u8,
) -> u8 {
    if addr < ROM_END {
        rom[addr as int]
    } else if WRAM_START <= addr < WRAM_END {
        wram[addr - WRAM_START]
    } else if HRAM_START <= addr < HRAM_END {
        hram[addr - HRAM_START]
    } else if VRAM_START <= addr < VRAM_END {
        vram[addr - VRAM_START]
    } else if addr == IE {
        ie
    } else if addr == IF {
        iflag
    } else {
        io[addr - IO_START]
    }
}

/// The address space made of the given parts: a map from every mapped
/// address to the byte found there.
pub open spec fn memory_map(
    rom: Seq<u8>,
    wram: Seq<u8>,
    hram: Seq<u8>,
    vram: Seq<u8>,
    io: Seq<u8>,
    ie: u8,
    iflag: u8,
) -> Map<u16, u8> {
    Map::new(
        |addr: u16| is_mapped(addr, rom.len(), wram.len(), hram.len(), vram.len()),
        |addr: u16| cell_at(addr, rom, wram, hram, vram, io, ie, iflag),
    )
}

/// The address space of a bus with an empty cartridge and memories without
/// cells: only the peripheral and interrupt registers are mapped.
pub open spec fn bare_memory() -> Map<u16, u8> {
    memory_map(Seq::empty(), Seq::empty(), Seq::empty(), Seq::empty(), IO::initial(), 0, 0)
}

/// Whether a read from `addr` finds a cell.
pub open spec fn can_read(memory: Map<u16, u8>, addr: u16) -> bool {
    memory.dom().contains(addr)
}

/// Whether a write to `addr` finds a cell that takes it: a mapped address
/// above the cartridge.
pub open spec fn can_write(memory: Map<u16, u8>, addr: u16) -> bool {
    addr >= ROM_END && memory.dom().contains(addr)
}

/// The fault that a read from `addr` runs into, if any.
pub open spec fn read_fault(memory: Map<u16, u8>, addr: u16) -> Option<Fault> {
    if can_read(memory, addr) {
        None
    } else {
        Some(Fault::UnmappedRead(addr))
    }
}

/// The fault that a write to `addr` runs into, if any.
pub open spec fn write_fault(memory: Map<u16, u8>, addr: u16) -> Option<Fault> {
    if addr < ROM_END {
        Some(Fault::RomWrite(addr))
    } else if !memory.dom().contains(addr) {
        Some(Fault::UnmappedWrite(addr))
    } else {
        None
    }
}

/// The bus. It owns the cartridge image, the memories and the registers, and
/// routes each access by its address.
pub struct Bus {
    wram: Ram,
    hram: Ram,
    vram: Ram,
    rom: Vec<u8>,
    io: IO,
    ie: u8,
    iflag: u8,
}

impl View for Bus {
    type V = Map<u16, u8>;

    /// The address space as the processor sees it.
    closed spec fn view(&self) -> Map<u16, u8> {
        memory_map(self.rom@, self.wram@, self.hram@, self.vram@, self.io@, self.ie, self.iflag)
    }
}

impl Bus {
    /// A bus over the given cartridge image and memories, with the
    /// peripheral registers as at power-on and both interrupt registers zero.
    pub fn new(wram: Ram, rom: Box<[u8]>, hram: Ram, vram: Ram) -> (bus: Bus)
        ensures
            bus@ == memory_map(rom@, wram@, hram@, vram@, IO::initial(), 0, 0),
    {
        Bus { wram, rom: rom.into_vec(), hram, vram, ie: 0, iflag: 0, io: IO::new() }
    }

    /// The peripheral registers and the interrupt registers are always
    /// mapped.
    pub proof fn lemma_registers_mapped(&self)
        ensures
            forall|addr: u16|
                IO_START <= addr < IO_END || addr == IE ==> #[trigger] self@.dom().contains(addr),
    {
    }

    /// Whether `read` may be called on `addr`.
    pub fn is_readable(&self, addr: u16) -> (ok: bool)
        ensures
            ok == can_read(self@, addr),
    {
        if addr < ROM_END {
            (addr as usize) < self.rom.len()
        } else if WRAM_START <= addr && addr < WRAM_END {
            ((addr - WRAM_START) as usize) < self.wram.capacity()
        } else if HRAM_START <= addr && addr < HRAM_END {
            ((addr - HRAM_START) as usize) < self.hram.capacity()
        } else if VRAM_START <= addr && addr < VRAM_END {
            ((addr - VRAM_START) as usize) < self.vram.capacity()
        } else {
            addr == IE || (IO_START <= addr && addr < IO_END)
        }
    }

    /// Whether `write` may be called on `addr`.
    pub fn is_writable(&self, addr: u16) -> (ok: bool)
        ensures
            ok == can_write(self@, addr),
    {
        addr >= ROM_END && self.is_readable(addr)
    }

    /// The byte at `addr`.
    pub fn read(&self, addr: u16) -> (value: u8)
        requires
            can_read(self@, addr),
        ensures
            value == self@[addr],
    {
        if addr < ROM_END {
            return self.rom[addr as usize];
        }
        if WRAM_START <= addr && addr < WRAM_END {
            let ram_addr = addr - WRAM_START;
            return self.wram.read(ram_addr as usize);
        }
        if HRAM_START <= addr && addr < HRAM_END {
            let ram_addr = addr - HRAM_START;
            return self.hram.read(ram_addr as usize);
        }
        if VRAM_START <= addr && addr < VRAM_END {
            let ram_addr = addr - VRAM_START;
            return self.vram.read(ram_addr as usize);
        }
        if addr == IE {
            return self.ie;
        }
        if addr == IF {
            return self.iflag;
        }
        self.io.read(addr)
    }

    /// Stores `value` at `addr`; every other address keeps its byte.
    pub fn write(&mut self, addr: u16, value: u8)
        requires
            can_write(old(self)@, addr),
        ensures
            final(self)@ == old(self)@.insert(addr, value),
    {
        proof {
            self.io.lemma_len();
        }
        if WRAM_START <= addr && addr < WRAM_END {
            let ram_addr = addr - WRAM_START;
            self.wram.write(ram_addr as usize, value);
        } else if HRAM_START <= addr && addr < HRAM_END {
            let ram_addr = addr - HRAM_START;
            self.hram.write(ram_addr as usize, value);
        } else if VRAM_START <= addr && addr < VRAM_END {
            let ram_addr = addr - VRAM_START;
            self.vram.write(ram_addr as usize, value);
        } else if addr == IE {
            self.ie = value;
        } else if addr == IF {
            self.iflag = value;
        } else {
            self.io.write(addr, value);
        }
        assert(self@ =~= old(self)@.insert(addr, value));
    }
}

impl Default for Bus {
    /// A bus with an empty cartridge and memories without cells.
    fn default() -> (bus: Bus)
        ensures
            bus@ == bare_memory(),
    {
        Bus {
            wram: Ram::default(),
            rom: Vec::new(),
            hram: Ram::default(),
            vram: Ram::default(),
            ie: 0,
            iflag: 0,
            io: IO::new(),
        }
    }
}

} // verus!
