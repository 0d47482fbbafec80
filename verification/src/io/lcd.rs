//! The display register file: plain byte storage behind 0xFF40–0xFF4B.

use vstd::prelude::*;

verus! {

/// First address of the display register file.
pub const START: usize = 0xFF40;

/// First address past the display register file.
pub const END: usize = 0xFF4C;

/// Address of the register that holds the line being drawn.
pub const LINE: usize = 0xFF44;

/// The line number that the register at `LINE` starts with: the first line of
/// vertical blanking, so that a program waiting for it goes on.
pub const FIRST_BLANK_LINE: u8 = 0x90;

const CAPACITY: usize = END - START;

/// The display registers. Nothing is drawn: a register gives back the byte
/// last written to it.
pub struct LCD {
    regs: [u8; CAPACITY],
}

impl View for LCD {
    type V = Seq<u8>;

    /// The registers in address order; register `START + i` is entry `i`.
    closed spec fn view(&self) -> Seq<u8> {
        self.regs@
    }
}

impl LCD {
    /// What the registers hold at power-on: zero, but for the line register.
    pub open spec fn initial() -> Seq<u8> {
        Seq::new((END - START) as nat, |i: int| 0u8).update(LINE - START, FIRST_BLANK_LINE)
    }

    /// The registers as they are at power-on.
    pub fn new() -> (lcd: LCD)
        ensures
            lcd@ == Self::initial(),
    {
        let mut lcd = LCD { regs: [0; CAPACITY] };
        lcd.regs[LINE - START] = FIRST_BLANK_LINE;
        assert(lcd@ =~= Self::initial());
        lcd
    }

    /// Stores `value` in the register at address `addr`.
    pub fn write(&mut self, addr: usize, value: u8)
        requires
            START <= addr < END,
        ensures
            final(self)@ == old(self)@.update(addr - START, value),
    {
        self.regs[addr - START] = value;
    }

    /// The byte in the register at address `addr`.
    pub fn read(&self, addr: usize) -> (value: u8)
        requires
            START <= addr < END,
        ensures
            value == self@[addr - START],
    {
        self.regs[addr - START]
    }

    /// There is one entry for each address of the file.
    pub proof fn lemma_len(&self)
        ensures
            self@.len() == END - START,
    {
    }
}

impl Default for LCD {
    /// All registers zero, the line register too.
    fn default() -> (lcd: LCD)
        ensures
            lcd@ == Seq::new((END - START) as nat, |i: int| 0u8),
    {
        let lcd = LCD { regs: [0; CAPACITY] };
        assert(lcd@ =~= Seq::new((END - START) as nat, |i: int| 0u8));
        lcd
    }
}

} // verus!
