//! The processor: its registers and flags, and its access to the bus.

use crate::bits::{bit_at, get_bit, lemma_bit_written, set_bit};
use crate::bus::{bare_memory, can_read, can_write, Bus};
use crate::flags::{flags_byte, flags_of, lemma_masked_is_flags_byte, Flags};
use crate::instr::Slot;
use crate::state::{high_byte, low_byte, word, CpuState};
use vstd::prelude::*;

pub mod arithmetic;
pub mod dispatch;
pub mod execute;
pub mod run;
pub mod shifts;

verus! {

/// Position of the zero flag in the flag register, counted from its most
/// significant bit.
const Z_POSITION: usize = 0;

/// Position of the subtract flag.
const N_POSITION: usize = 1;

/// Position of the half-carry flag.
const H_POSITION: usize = 2;

/// Position of the carry flag.
const C_POSITION: usize = 3;

/// The word made of a high and a low byte.
pub fn join(high: u8, low: u8) -> (value: u16)
    ensures
        value == word(high, low),
{
    (high as u16) * 0x100 + (low as u16)
}

/// The high and the low byte of a word.
pub fn split(value: u16) -> (bytes: (u8, u8))
    ensures
        bytes.0 == high_byte(value),
        bytes.1 == low_byte(value),
{
    ((value / 0x100) as u8, (value % 0x100) as u8)
}

/// The processor, with the bus it is connected to.
///
/// The eight registers are kept as bytes; a register pair is its two bytes
/// read together. Of the flag register only the upper nibble is ever read.
pub struct Cpu {
    bus: Bus,
    a: u8,
    f: u8,
    b: u8,
    c: u8,
    d: u8,
    e: u8,
    h: u8,
    l: u8,
    sp: u16,
    pc: u16,
    ime: bool,
}

impl View for Cpu {
    type V = CpuState;

    closed spec fn view(&self) -> CpuState {
        CpuState {
            a: self.a,
            flags: flags_of(self.f),
            b: self.b,
            c: self.c,
            d: self.d,
            e: self.e,
            h: self.h,
            l: self.l,
            sp: self.sp,
            pc: self.pc,
            ime: self.ime,
            memory: self.bus@,
        }
    }
}

impl Cpu {
    /// A processor in the state that the start-up program leaves it in,
    /// connected to a bus without cartridge or memory.
    pub fn new() -> (cpu: Cpu)
        ensures
            cpu@ == CpuState::reset(bare_memory()),
    {
        proof {
            crate::flags::lemma_flags_of_flags_byte(Flags { z: true, n: false, h: true, c: true });
        }
        Cpu {
            bus: Bus::default(),
            a: 0x01,
            f: 0xB0,
            b: 0x00,
            c: 0x13,
            d: 0x00,
            e: 0xD8,
            h: 0x01,
            l: 0x4D,
            sp: 0xFFFE,
            pc: 0x0100,
            ime: false,
        }
    }

    /// Replaces the bus; the registers stay.
    pub fn connect_bus(&mut self, bus: Bus)
        ensures
            final(self)@ == (CpuState { memory: bus@, ..old(self)@ }),
    {
        self.bus = bus;
    }

    /// The bus.
    pub fn bus(&self) -> (bus: &Bus)
        ensures
            bus@ == self@.memory,
    {
        &self.bus
    }

    /// Whether the byte at `addr` can be read.
    pub fn is_readable(&self, addr: u16) -> (ok: bool)
        ensures
            ok == can_read(self@.memory, addr),
    {
        self.bus.is_readable(addr)
    }

    /// Whether the byte at `addr` can be written.
    pub fn is_writable(&self, addr: u16) -> (ok: bool)
        ensures
            ok == can_write(self@.memory, addr),
    {
        self.bus.is_writable(addr)
    }

    /// The byte at `addr`.
    pub fn read(&self, addr: u16) -> (value: u8)
        requires
            can_read(self@.memory, addr),
        ensures
            value == self@.read(addr),
    {
        self.bus.read(addr)
    }

    /// Stores `value` at `addr`.
    pub fn write(&mut self, addr: u16, value: u8)
        requires
            can_write(old(self)@.memory, addr),
        ensures
            final(self)@ == old(self)@.written(addr, value),
    {
        self.bus.write(addr, value);
    }

    /// The peripheral registers and the interrupt registers are mapped on
    /// every bus.
    pub proof fn lemma_registers_mapped(&self)
        ensures
            forall|addr: u16|
                crate::bus::IO_START <= addr < crate::bus::IO_END || addr == crate::bus::IE
                    ==> #[trigger] self@.memory.dom().contains(addr),
    {
        self.bus.lemma_registers_mapped();
    }

    /// The value of an 8-bit operand.
    pub fn read_reg(&self, slot: Slot) -> (value: u8)
        requires
            self@.reg_read_fault(slot) is None,
        ensures
            value == self@.reg(slot),
    {
        match slot {
            Slot::B => self.b,
            Slot::C => self.c,
            Slot::D => self.d,
            Slot::E => self.e,
            Slot::H => self.h,
            Slot::L => self.l,
            Slot::AtHl => self.bus.read(self.get_reg_hl()),
            Slot::A => self.a,
        }
    }

    /// Puts `value` in an 8-bit operand.
    pub fn write_reg(&mut self, slot: Slot, value: u8)
        requires
            old(self)@.reg_write_fault(slot) is None,
        ensures
            final(self)@ == old(self)@.with_reg(slot, value),
    {
        match slot {
            Slot::B => self.b = value,
            Slot::C => self.c = value,
            Slot::D => self.d = value,
            Slot::E => self.e = value,
            Slot::H => self.h = value,
            Slot::L => self.l = value,
            Slot::AtHl => {
                let addr = self.get_reg_hl();
                self.bus.write(addr, value)
            },
            Slot::A => self.a = value,
        }
    }

    /// The stack pointer.
    pub fn get_sp(&self) -> (value: u16)
        ensures
            value == self@.sp,
    {
        self.sp
    }

    /// The program counter.
    pub fn get_pc(&self) -> (value: u16)
        ensures
            value == self@.pc,
    {
        self.pc
    }

    /// Whether interrupts are enabled as a whole.
    pub fn get_ime(&self) -> (value: bool)
        ensures
            value == self@.ime,
    {
        self.ime
    }

    /// Sets the stack pointer.
    pub fn set_sp(&mut self, value: u16)
        ensures
            final(self)@ == (CpuState { sp: value, ..old(self)@ }),
    {
        self.sp = value;
    }

    /// Sets the program counter.
    pub fn set_pc(&mut self, value: u16)
        ensures
            final(self)@ == old(self)@.jump(value),
    {
        self.pc = value;
    }

    /// Enables or disables interrupts as a whole.
    pub fn set_ime(&mut self, value: bool)
        ensures
            final(self)@ == (CpuState { ime: value, ..old(self)@ }),
    {
        self.ime = value;
    }

    /// Clears the four flags.
    pub fn reset_flags(&mut self)
        ensures
            final(self)@ == old(self)@.with_flags(
                Flags { z: false, n: false, h: false, c: false },
            ),
    {
        self.set_z_flag(false);
        self.set_n_flag(false);
        self.set_h_flag(false);
        self.set_c_flag(false);
    }

    /// Sets the four flags.
    pub fn set_flags(&mut self, flags: Flags)
        ensures
            final(self)@ == old(self)@.with_flags(flags),
    {
        self.set_z_flag(flags.z);
        self.set_n_flag(flags.n);
        self.set_h_flag(flags.h);
        self.set_c_flag(flags.c);
    }

    /// The four flags.
    pub fn get_flags(&self) -> (flags: Flags)
        ensures
            flags == self@.flags,
    {
        Flags {
            z: self.get_z_flag(),
            n: self.get_n_flag(),
            h: self.get_h_flag(),
            c: self.get_c_flag(),
        }
    }

    /// Writes AF as a word. The low nibble of the value is dropped: it reads
    /// back as zero.
    pub fn set_reg_af(&mut self, value: u16)
        ensures
            final(self)@ == old(self)@.with_af(value),
    {
        let (high, low) = split(value);
        proof {
            lemma_masked_is_flags_byte(low);
        }
        self.a = high;
        self.f = low & 0xF0;
    }

    /// Writes BC as a word: B takes the high byte, C the low one.
    pub fn set_reg_bc(&mut self, value: u16)
        ensures
            final(self)@ == old(self)@.with_bc(value),
    {
        let (high, low) = split(value);
        self.b = high;
        self.c = low;
    }

    /// Writes DE as a word: D takes the high byte, E the low one.
    pub fn set_reg_de(&mut self, value: u16)
        ensures
            final(self)@ == old(self)@.with_de(value),
    {
        let (high, low) = split(value);
        self.d = high;
        self.e = low;
    }

    /// Writes HL as a word: H takes the high byte, L the low one.
    pub fn set_reg_hl(&mut self, value: u16)
        ensures
            final(self)@ == old(self)@.with_hl(value),
    {
        let (high, low) = split(value);
        self.h = high;
        self.l = low;
    }

    /// Writes A.
    pub fn set_reg_a(&mut self, value: u8)
        ensures
            final(self)@ == (CpuState { a: value, ..old(self)@ }),
    {
        self.a = value;
    }

    /// Writes B, the high half of BC.
    pub fn set_reg_b(&mut self, value: u8)
        ensures
            final(self)@ == (CpuState { b: value, ..old(self)@ }),
    {
        self.b = value;
    }

    /// Writes C, the low half of BC.
    pub fn set_reg_c(&mut self, value: u8)
        ensures
            final(self)@ == (CpuState { c: value, ..old(self)@ }),
    {
        self.c = value;
    }

    /// Writes D, the high half of DE.
    pub fn set_reg_d(&mut self, value: u8)
        ensures
            final(self)@ == (CpuState { d: value, ..old(self)@ }),
    {
        self.d = value;
    }

    /// Writes E, the low half of DE.
    pub fn set_reg_e(&mut self, value: u8)
        ensures
            final(self)@ == (CpuState { e: value, ..old(self)@ }),
    {
        self.e = value;
    }

    /// Writes H, the high half of HL.
    pub fn set_reg_h(&mut self, value: u8)
        ensures
            final(self)@ == (CpuState { h: value, ..old(self)@ }),
    {
        self.h = value;
    }

    /// Writes L, the low half of HL.
    pub fn set_reg_l(&mut self, value: u8)
        ensures
            final(self)@ == (CpuState { l: value, ..old(self)@ }),
    {
        self.l = value;
    }

    /// AF as a word; its low nibble is zero.
    pub fn get_reg_af(&self) -> (value: u16)
        ensures
            value == self@.af(),
    {
        join(self.a, self.get_reg_f())
    }

    /// BC as a word.
    pub fn get_reg_bc(&self) -> (value: u16)
        ensures
            value == self@.bc(),
    {
        join(self.b, self.c)
    }

    /// DE as a word.
    pub fn get_reg_de(&self) -> (value: u16)
        ensures
            value == self@.de(),
    {
        join(self.d, self.e)
    }

    /// HL as a word.
    pub fn get_reg_hl(&self) -> (value: u16)
        ensures
            value == self@.hl(),
    {
        join(self.h, self.l)
    }

    /// A, the accumulator.
    pub fn get_reg_a(&self) -> (value: u8)
        ensures
            value == self@.a,
    {
        self.a
    }

    /// The flag register: the four flags in its upper nibble, zero below.
    pub fn get_reg_f(&self) -> (value: u8)
        ensures
            value == flags_byte(self@.flags),
    {
        proof {
            lemma_masked_is_flags_byte(self.f);
        }
        self.f & 0xF0
    }

    /// B, the high half of BC.
    pub fn get_reg_b(&self) -> (value: u8)
        ensures
            value == self@.b,
    {
        self.b
    }

    /// The eight bits of B, most significant first.
    pub fn view_reg_b(&self) -> (bits: [bool; 8])
        ensures
            forall|i: int| 0 <= i < 8 ==> bits[i] == bit_at(self@.b, i as usize),
    {
        bits_of(self.b)
    }

    /// The eight bits of C, most significant first.
    pub fn view_reg_c(&self) -> (bits: [bool; 8])
        ensures
            forall|i: int| 0 <= i < 8 ==> bits[i] == bit_at(self@.c, i as usize),
    {
        bits_of(self.c)
    }

    /// C, the low half of BC.
    pub fn get_reg_c(&self) -> (value: u8)
        ensures
            value == self@.c,
    {
        self.c
    }

    /// D, the high half of DE.
    pub fn get_reg_d(&self) -> (value: u8)
        ensures
            value == self@.d,
    {
        self.d
    }

    /// E, the low half of DE.
    pub fn get_reg_e(&self) -> (value: u8)
        ensures
            value == self@.e,
    {
        self.e
    }

    /// H, the high half of HL.
    pub fn get_reg_h(&self) -> (value: u8)
        ensures
            value == self@.h,
    {
        self.h
    }

    /// L, the low half of HL.
    pub fn get_reg_l(&self) -> (value: u8)
        ensures
            value == self@.l,
    {
        self.l
    }

    /// The zero flag.
    pub fn get_z_flag(&self) -> (flag: bool)
        ensures
            flag == self@.flags.z,
    {
        get_bit(self.f, Z_POSITION)
    }

    /// The subtract flag.
    pub fn get_n_flag(&self) -> (flag: bool)
        ensures
            flag == self@.flags.n,
    {
        get_bit(self.f, N_POSITION)
    }

    /// The half-carry flag.
    pub fn get_h_flag(&self) -> (flag: bool)
        ensures
            flag == self@.flags.h,
    {
        get_bit(self.f, H_POSITION)
    }

    /// The carry flag.
    pub fn get_c_flag(&self) -> (flag: bool)
        ensures
            flag == self@.flags.c,
    {
        get_bit(self.f, C_POSITION)
    }

    /// Sets or clears the zero flag; the other flags stay.
    pub fn set_z_flag(&mut self, value: bool)
        ensures
            final(self)@ == old(self)@.with_flags(Flags { z: value, ..old(self)@.flags }),
    {
        proof {
            lemma_flag_written(self.f, Z_POSITION, value);
        }
        self.f = set_bit(self.f, Z_POSITION, value);
    }

    /// Sets or clears the subtract flag; the other flags stay.
    pub fn set_n_flag(&mut self, value: bool)
        ensures
            final(self)@ == old(self)@.with_flags(Flags { n: value, ..old(self)@.flags }),
    {
        proof {
            lemma_flag_written(self.f, N_POSITION, value);
        }
        self.f = set_bit(self.f, N_POSITION, value);
    }

    /// Sets or clears the half-carry flag; the other flags stay.
    pub fn set_h_flag(&mut self, value: bool)
        ensures
            final(self)@ == old(self)@.with_flags(Flags { h: value, ..old(self)@.flags }),
    {
        proof {
            lemma_flag_written(self.f, H_POSITION, value);
        }
        self.f = set_bit(self.f, H_POSITION, value);
    }

    /// Sets or clears the carry flag; the other flags stay.
    pub fn set_c_flag(&mut self, value: bool)
        ensures
            final(self)@ == old(self)@.with_flags(Flags { c: value, ..old(self)@.flags }),
    {
        proof {
            lemma_flag_written(self.f, C_POSITION, value);
        }
        self.f = set_bit(self.f, C_POSITION, value);
    }
}

/// What writing one of the four flag bits does to the four of them.
proof fn lemma_flag_written(byte: u8, position: usize, value: bool)
    requires
        position < 4,
    ensures
        forall|read: usize|
            read < 4 ==> #[trigger] bit_at(crate::bits::with_bit(byte, position, value), read) == (
            if position == read {
                value
            } else {
                bit_at(byte, read)
            }),
{
    assert forall|read: usize| read < 4 implies #[trigger] bit_at(
        crate::bits::with_bit(byte, position, value),
        read,
    ) == (if position == read {
        value
    } else {
        bit_at(byte, read)
    }) by {
        lemma_bit_written(byte, position, read, value);
    }
}

/// The eight bits of a byte, most significant first.
pub fn bits_of(value: u8) -> (bits: [bool; 8])
    ensures
        forall|i: int| 0 <= i < 8 ==> bits[i] == bit_at(value, i as usize),
{
    let mut bits = [false; 8];
    let mut i: usize = 0;
    while i < 8
        invariant
            i <= 8,
            forall|k: int| 0 <= k < i ==> bits[k] == bit_at(value, k as usize),
        decreases 8 - i,
    {
        bits[i] = get_bit(value, i);
        i += 1;
    }
    bits
}

} // verus!
