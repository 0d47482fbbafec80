//! Running the processor: the check for interrupts, the serial line, and
//! whole steps.

use crate::alu;
use crate::bits::{get_bit, set_bit};
use crate::bus::{IE, IF};
use crate::cpu::Cpu;
use crate::fault::Fault;
use crate::instr::decode;
use crate::io::io::{SB, SC};
use crate::state::{
    bytes_of, dispatch_fault, dispatched, next, next_fault, pending_interrupt, perform_fault,
    performed, polled, run_end, run_fault, run_output, serial_output, step_end, step_output,
    FIRST_VECTOR, INTERRUPTS, SERIAL_SEND,
};
use vstd::prelude::*;

verus! {

/// How one step ended.
#[derive(Clone, Copy, Debug, PartialEq, Eq, Structural)]
pub struct Step {
    /// The byte sent on the serial line, if one was.
    pub serial: Option<u8>,
    /// The fault that stopped the step, if one did.
    pub fault: Option<Fault>,
}

/// How a run ended.
pub struct Run {
    /// The bytes sent on the serial line, in order.
    pub output: Vec<u8>,
    /// The fault that stopped the run, if one did.
    pub fault: Option<Fault>,
}

/// The lowest of the five interrupt bits that is set in `pending`, if any.
pub fn first_pending(pending: u8) -> (index: Option<u8>)
    ensures
        index == (if alu::bit(pending, 0) {
            Some(0u8)
        } else if alu::bit(pending, 1) {
            Some(1u8)
        } else if alu::bit(pending, 2) {
            Some(2u8)
        } else if alu::bit(pending, 3) {
            Some(3u8)
        } else if alu::bit(pending, 4) {
            Some(4u8)
        } else {
            None
        }),
{
    let mut i: u8 = 0;
    while i < INTERRUPTS
        invariant
            i <= INTERRUPTS,
            forall|k: u8| k < i ==> !alu::bit(pending, k),
        decreases INTERRUPTS - i,
    {
        if get_bit(pending, (7 - i) as usize) {
            return Some(i);
        }
        i += 1;
    }
    None
}

impl Cpu {
    /// The index of the interrupt that would be served now, if any.
    pub fn pending_interrupt(&self) -> (index: Option<u8>)
        ensures
            index == pending_interrupt(self@),
    {
        if !self.get_ime() {
            return None;
        }
        proof {
            self.lemma_registers_mapped();
        }
        let ie_val = self.read(IE);
        let if_val = self.read(IF);
        first_pending(ie_val & if_val)
    }

    /// The fault that the check for interrupts would run into, if any.
    pub fn interrupt_fault(&self) -> (fault: Option<Fault>)
        ensures
            fault == dispatch_fault(self@),
    {
        match self.pending_interrupt() {
            Some(_) => self.push_check(),
            None => None,
        }
    }

    /// The check for interrupts that precedes each instruction: serves the
    /// pending interrupt of highest priority, if interrupts are enabled and
    /// one is pending.
    pub fn handle_interrupts(&mut self)
        requires
            dispatch_fault(old(self)@) is None,
        ensures
            final(self)@ == dispatched(old(self)@),
    {
        match self.pending_interrupt() {
            None => {},
            Some(i) => {
                proof {
                    self.lemma_registers_mapped();
                }
                let pc = self.get_pc();
                let if_val = self.read(IF);
                self.set_ime(false);
                self.write(IF, set_bit(if_val, (7 - i) as usize, false));
                self.push(pc);
                self.set_pc(FIRST_VECTOR + 8 * (i as u16));
            },
        }
    }

    /// Looks after the serial line: where the program has asked for a byte
    /// to be sent, hands that byte out and clears the request.
    pub fn poll_serial(&mut self) -> (out: Option<u8>)
        ensures
            out == serial_output(old(self)@),
            final(self)@ == polled(old(self)@),
    {
        proof {
            self.lemma_registers_mapped();
        }
        if self.read(SC) == SERIAL_SEND {
            let byte = self.read(SB);
            self.write(SC, 0x0);
            Some(byte)
        } else {
            None
        }
    }

    /// Performs the instruction with code `inst`: looks after the serial
    /// line, then carries the instruction out. Gives the byte sent on the
    /// serial line, if one was.
    pub fn perform_instruction(&mut self, inst: u8) -> (out: Option<u8>)
        requires
            perform_fault(old(self)@, inst) is None,
        ensures
            out == serial_output(old(self)@),
            final(self)@ == performed(old(self)@, inst),
    {
        let out = self.poll_serial();
        self.execute(decode(inst));
        out
    }

    /// One whole step: the check for interrupts, the fetch of the code at
    /// the program counter, and the instruction. Gives the byte sent on the
    /// serial line, if one was.
    pub fn run_next_instruction(&mut self) -> (out: Option<u8>)
        requires
            next_fault(old(self)@) is None,
        ensures
            out == step_output(old(self)@),
            final(self)@ == next(old(self)@),
    {
        self.handle_interrupts();
        let inst = self.read(self.get_pc());
        self.perform_instruction(inst)
    }

    /// One whole step, or as much of it as can be done: each part is
    /// checked before it is begun, and the first fault ends the step.
    pub fn step(&mut self) -> (step: Step)
        ensures
            step.fault == next_fault(old(self)@),
            step.serial == step_output(old(self)@),
            final(self)@ == step_end(old(self)@),
    {
        let fault = self.interrupt_fault();
        if fault.is_some() {
            return Step { serial: None, fault };
        }
        self.handle_interrupts();
        let pc = self.get_pc();
        let fault = self.read_check(pc);
        if fault.is_some() {
            return Step { serial: None, fault };
        }
        let instr = decode(self.read(pc));
        let serial = self.poll_serial();
        let fault = self.fault_of(instr);
        if fault.is_some() {
            return Step { serial, fault };
        }
        self.execute(instr);
        Step { serial, fault: None }
    }

    /// Runs until a step faults, for `limit` steps at most. Gives the bytes
    /// sent on the serial line and the fault that ended the run, if one did.
    pub fn run(&mut self, limit: usize) -> (run: Run)
        ensures
            run.fault == run_fault(old(self)@, limit as nat),
            run.output@ == run_output(old(self)@, limit as nat),
            final(self)@ == run_end(old(self)@, limit as nat),
    {
        let mut output: Vec<u8> = Vec::new();
        let mut done: usize = 0;
        while done < limit
            invariant
                done <= limit,
                run_fault(old(self)@, limit as nat) == run_fault(self@, (limit - done) as nat),
                run_output(old(self)@, limit as nat) == output@ + run_output(
                    self@,
                    (limit - done) as nat,
                ),
                run_end(old(self)@, limit as nat) == run_end(self@, (limit - done) as nat),
            decreases limit - done,
        {
            let ghost before = self@;
            let ghost sent = output@;
            let step = self.step();
            if let Some(byte) = step.serial {
                output.push(byte);
            }
            assert(output@ == sent + bytes_of(step_output(before)));
            if step.fault.is_some() {
                assert(run_output(before, (limit - done) as nat) == bytes_of(step_output(before)));
                return Run { output, fault: step.fault };
            }
            done += 1;
            assert(sent + (bytes_of(step_output(before)) + run_output(
                self@,
                (limit - done) as nat,
            )) == output@ + run_output(self@, (limit - done) as nat));
        }
        assert(output@ + Seq::<u8>::empty() == output@);
        Run { output, fault: None }
    }
}

} // verus!
