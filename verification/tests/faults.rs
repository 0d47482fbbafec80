use gb_core::bus::Bus;
use gb_core::cpu::run::Step;
use gb_core::cpu::Cpu;
use gb_core::fault::Fault;
use gb_core::instr::{decode, Instr};
use gb_core::ram::Ram;

fn machine(program: &[u8]) -> Cpu {
    let mut rom = vec![0u8; 0x8000];
    rom[0x100..0x100 + program.len()].copy_from_slice(program);
    let bus = Bus::new(
        Ram::new(8 * 1024),
        rom.into_boxed_slice(),
        Ram::new(127),
        Ram::new(8 * 1024),
    );
    let mut cpu = Cpu::new();
    cpu.connect_bus(bus);
    cpu
}

fn fault_after(program: &[u8], good_steps: usize) -> (Cpu, Option<Fault>) {
    let mut cpu = machine(program);
    for _ in 0..good_steps {
        assert_eq!(cpu.step(), Step { serial: None, fault: None });
    }
    let step = cpu.step();
    (cpu, step.fault)
}

#[test]
fn halt_is_a_fault() {
    let (cpu, fault) = fault_after(&[0x00, 0x76], 1);
    assert_eq!(fault, Some(Fault::Halt));
    assert_eq!(cpu.get_pc(), 0x0101);
}

#[test]
fn unsupported_codes_are_faults() {
    for code in [0x10u8, 0xD3, 0xDB, 0xDD, 0xE3, 0xE4, 0xEB, 0xEC, 0xED, 0xF4, 0xFC, 0xFD] {
        let (cpu, fault) = fault_after(&[code], 0);
        assert_eq!(fault, Some(Fault::UnknownInstruction(code)));
        assert_eq!(cpu.get_pc(), 0x0100);
    }
}

#[test]
fn every_other_code_is_supported() {
    let mut unknown = 0;
    for code in 0..=255u8 {
        match decode(code) {
            Instr::Unknown(c) => {
                assert_eq!(c, code);
                unknown += 1;
            }
            _ => {}
        }
    }
    assert_eq!(unknown, 12);
    assert_eq!(decode(0x76), Instr::Halt);
}

#[test]
fn write_to_the_cartridge_is_a_fault() {
    // LD HL,0x1234 ; LD (HL),A
    let (cpu, fault) = fault_after(&[0x21, 0x34, 0x12, 0x77], 1);
    assert_eq!(fault, Some(Fault::RomWrite(0x1234)));
    assert_eq!(cpu.get_pc(), 0x0103);
    // LD (0x0000),A
    let (_, fault) = fault_after(&[0xEA, 0x00, 0x00], 0);
    assert_eq!(fault, Some(Fault::RomWrite(0x0000)));
}

#[test]
fn unmapped_accesses_are_faults() {
    // LD A,(0xA000)
    let (_, fault) = fault_after(&[0xFA, 0x00, 0xA0], 0);
    assert_eq!(fault, Some(Fault::UnmappedRead(0xA000)));
    // LD (0xE000),A
    let (_, fault) = fault_after(&[0xEA, 0x00, 0xE0], 0);
    assert_eq!(fault, Some(Fault::UnmappedWrite(0xE000)));
    // LD HL,0xFEA0 ; INC (HL): the read comes first
    let (cpu, fault) = fault_after(&[0x21, 0xA0, 0xFE, 0x34], 1);
    assert_eq!(fault, Some(Fault::UnmappedRead(0xFEA0)));
    assert_eq!(cpu.get_reg_hl(), 0xFEA0);
    // LD HL,0x0200 ; INC (HL): the read is fine, the write is not
    let (_, fault) = fault_after(&[0x21, 0x00, 0x02, 0x34], 1);
    assert_eq!(fault, Some(Fault::RomWrite(0x0200)));
    // LD HL,0x0200 ; SET 0,(HL)
    let (cpu, fault) = fault_after(&[0x21, 0x00, 0x02, 0xCB, 0xC6], 1);
    assert_eq!(fault, Some(Fault::RomWrite(0x0200)));
    assert_eq!(cpu.get_pc(), 0x0103);
    // LD HL,0x0200 ; BIT 0,(HL) only reads
    let (_, fault) = fault_after(&[0x21, 0x00, 0x02, 0xCB, 0x46], 2);
    assert_eq!(fault, None);
}

#[test]
fn stack_in_unmapped_memory_is_a_fault() {
    // LD SP,0xA002 ; PUSH BC
    let (cpu, fault) = fault_after(&[0x31, 0x02, 0xA0, 0xC5], 1);
    assert_eq!(fault, Some(Fault::UnmappedWrite(0xA001)));
    assert_eq!(cpu.get_sp(), 0xA002);
    // LD SP,0xA000 ; POP BC
    let (_, fault) = fault_after(&[0x31, 0x00, 0xA0, 0xC1], 1);
    assert_eq!(fault, Some(Fault::UnmappedRead(0xA000)));
    // LD SP,0x8001 ; CALL 0x0200: the high byte fits, the low byte would go to the cartridge
    let (cpu, fault) = fault_after(&[0x31, 0x01, 0x80, 0xCD, 0x00, 0x02], 1);
    assert_eq!(fault, Some(Fault::RomWrite(0x7FFF)));
    assert_eq!(cpu.get_pc(), 0x0103);
    assert_eq!(cpu.bus().read(0x8000), 0);
}

#[test]
fn a_jump_not_taken_does_not_read_its_target() {
    // A cartridge that ends after the code of JP NZ: with Z set the operand is never read.
    let mut rom = vec![0u8; 0x101];
    rom[0x100] = 0xC2;
    let bus = Bus::new(Ram::new(0), rom.into_boxed_slice(), Ram::new(0), Ram::new(0));
    let mut cpu = Cpu::new();
    cpu.connect_bus(bus);
    assert_eq!(cpu.fault_of(decode(0xC2)), None);
    cpu.set_z_flag(false);
    assert_eq!(cpu.fault_of(decode(0xC2)), Some(Fault::UnmappedRead(0x0101)));
    // An unconditional jump reads it.
    assert_eq!(cpu.fault_of(decode(0xC3)), Some(Fault::UnmappedRead(0x0101)));
}

#[test]
fn fetch_from_unmapped_memory_is_a_fault() {
    let mut cpu = machine(&[]);
    cpu.set_pc(0xA000);
    assert_eq!(
        cpu.step(),
        Step { serial: None, fault: Some(Fault::UnmappedRead(0xA000)) }
    );
    assert_eq!(cpu.get_pc(), 0xA000);
}

#[test]
fn a_new_processor_has_no_memory() {
    let mut cpu = Cpu::new();
    assert!(!cpu.is_readable(0x0100));
    assert!(cpu.is_writable(0xFF01));
    assert_eq!(
        cpu.step(),
        Step { serial: None, fault: Some(Fault::UnmappedRead(0x0100)) }
    );
}

#[test]
fn prefixed_instruction_checked_where_it_stands() {
    // At 0x100: SET 0,(HL) with HL in the cartridge, then BIT 0,(HL).
    let mut cpu = machine(&[0xC6, 0x46]);
    cpu.set_reg_hl(0x0200);
    assert_eq!(cpu.cb_instruction_fault(), Some(Fault::RomWrite(0x0200)));
    cpu.set_pc(0x0101);
    assert_eq!(cpu.cb_instruction_fault(), None);
    cpu.set_reg_hl(0xA000);
    assert_eq!(cpu.cb_instruction_fault(), Some(Fault::UnmappedRead(0xA000)));
    cpu.set_pc(0xB000);
    assert_eq!(cpu.cb_instruction_fault(), Some(Fault::UnmappedRead(0xB000)));
}
