//! The conditions on which the machine cannot go on.

use vstd::prelude::*;

verus! {

/// Why an instruction cannot be carried out. None of these can be recovered
/// from: each stands for a defect of the program that is run.
#[derive(Clone, Copy, Debug, PartialEq, Eq, Structural)]
pub enum Fault {
    /// The halt instruction was reached.
    Halt,
    /// The byte is not the code of a supported instruction.
    UnknownInstruction(u8),
    /// A read from an address that nothing is mapped to.
    UnmappedRead(u16),
    /// A write to an address that nothing is mapped to.
    UnmappedWrite(u16),
    /// A write to the cartridge, which is read-only.
    RomWrite(u16),
}

/// The first fault of two checks made one after the other.
pub open spec fn first_of(first: Option<Fault>, then: Option<Fault>) -> Option<Fault> {
    if first is Some {
        first
    } else {
        then
    }
}

} // verus!
