//! The bank of peripheral registers behind 0xFF00–0xFF7F.

use crate::io::lcd;
use crate::io::lcd::LCD;
use crate::io::sound;
use crate::io::sound::SoundController;
use vstd::prelude::*;

verus! {

/// First address of the register bank.
pub const IO_REGISTERS_START: usize = 0xFF00;

/// First address past the register bank.
pub const IO_REGISTERS_END: usize = 0xFF80;

/// Address of the serial data register.
pub const SB: u16 = 0xFF01;

/// Address of the serial control register.
pub const SC: u16 = 0xFF02;

const CAPACITY: usize = IO_REGISTERS_END - IO_REGISTERS_START;

/// The peripheral registers: the sound file, the display file, and plain
/// cells for every other address of the bank.
pub struct IO {
    sound_controller: SoundController,
    lcd: LCD,
    io_registers: [u8; CAPACITY],
}

impl View for IO {
    type V = Seq<u8>;

    /// The 128 cells in address order; the register at `0xFF00 + i` is entry
    /// `i`, whichever part of the bank holds it.
    closed spec fn view(&self) -> Seq<u8> {
        Seq::new(
            (IO_REGISTERS_END - IO_REGISTERS_START) as nat,
            |i: int|
                {
                    let addr = IO_REGISTERS_START + i;
                    if sound::START <= addr < sound::END {
                        self.sound_controller@[addr - sound::START]
                    } else if lcd::START <= addr < lcd::END {
                        self.lcd@[addr - lcd::START]
                    } else {
                        self.io_registers@[i]
                    }
                },
        )
    }
}

impl IO {
    /// What the bank holds at power-on: zero, but for the display's line
    /// register.
    pub open spec fn initial() -> Seq<u8> {
        Seq::new((IO_REGISTERS_END - IO_REGISTERS_START) as nat, |i: int| 0u8).update(
            lcd::LINE - IO_REGISTERS_START,
            lcd::FIRST_BLANK_LINE,
        )
    }

    /// The bank as it is at power-on.
    pub fn new() -> (io: IO)
        ensures
            io@ == Self::initial(),
    {
        let io = IO {
            sound_controller: SoundController::new(),
            lcd: LCD::new(),
            io_registers: [0; CAPACITY],
        };
        assert(io@ =~= Self::initial());
        io
    }

    /// Stores `value` in the register at address `addr`.
    pub fn write(&mut self, addr: u16, value: u8)
        requires
            IO_REGISTERS_START <= addr < IO_REGISTERS_END,
        ensures
            final(self)@ == old(self)@.update(addr - IO_REGISTERS_START, value),
    {
        proof {
            self.sound_controller.lemma_len();
            self.lcd.lemma_len();
        }
        let at = addr as usize;
        if sound::START <= at && at < sound::END {
            self.sound_controller.write(at, value);
        } else if lcd::START <= at && at < lcd::END {
            self.lcd.write(at, value);
        } else {
            self.io_registers[at - IO_REGISTERS_START] = value;
        }
        assert(self@ =~= old(self)@.update(addr - IO_REGISTERS_START, value));
    }

    /// The byte in the register at address `addr`.
    pub fn read(&self, addr: u16) -> (value: u8)
        requires
            IO_REGISTERS_START <= addr < IO_REGISTERS_END,
        ensures
            value == self@[addr - IO_REGISTERS_START],
    {
        let at = addr as usize;
        if sound::START <= at && at < sound::END {
            self.sound_controller.read(at)
        } else if lcd::START <= at && at < lcd::END {
            self.lcd.read(at)
        } else {
            self.io_registers[at - IO_REGISTERS_START]
        }
    }

    /// The bank always has its 128 cells.
    pub proof fn lemma_len(&self)
        ensures
            self@.len() == IO_REGISTERS_END - IO_REGISTERS_START,
    {
    }
}

impl Default for IO {
    /// The bank as it is at power-on.
    fn default() -> (io: IO)
        ensures
            io@ == Self::initial(),
    {
        IO::new()
    }
}

} // verus!
