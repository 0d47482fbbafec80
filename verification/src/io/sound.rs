//! The sound register file: plain byte storage behind 0xFF10–0xFF26.

use vstd::prelude::*;

verus! {

/// First address of the sound register file.
pub const START: usize = 0xFF10;

/// First address past the sound register file.
pub const END: usize = 0xFF27;

const CAPACITY: usize = END - START;

/// The sound registers. No sound is produced: a register gives back the byte
/// last written to it.
pub struct SoundController {
    regs: [u8; CAPACITY],
}

impl View for SoundController {
    type V = Seq<u8>;

    /// The registers in address order; register `START + i` is entry `i`.
    closed spec fn view(&self) -> Seq<u8> {
        self.regs@
    }
}

impl SoundController {
    /// All registers zero.
    pub fn new() -> (sound: SoundController)
        ensures
            sound@ == Seq::new((END - START) as nat, |i: int| 0u8),
    {
        let sound = SoundController { regs: [0; CAPACITY] };
        assert(sound@ =~= Seq::new((END - START) as nat, |i: int| 0u8));
        sound
    }

    /// Stores `value` in the register at address `addr`.
    pub fn write(&mut self, addr: usize, value: u8)
        requires
            START <= addr < END,
        ensures
            final(self)@ == old(self)@.update(addr - START, value),
    {
        self.regs[addr - START] = value;
    }

    /// The byte in the register at address `addr`.
    pub fn read(&self, addr: usize) -> (value: u8)
        requires
            START <= addr < END,
        ensures
            value == self@[addr - START],
    {
        self.regs[addr - START]
    }

    /// There is one entry for each address of the file.
    pub proof fn lemma_len(&self)
        ensures
            self@.len() == END - START,
    {
    }
}

impl Default for SoundController {
    /// All registers zero.
    fn default() -> (sound: SoundController)
        ensures
            sound@ == Seq::new((END - START) as nat, |i: int| 0u8),
    {
        SoundController::new()
    }
}

} // verus!
