use gb_core::bus::Bus;
use gb_core::cpu::run::{first_pending, Step};
use gb_core::cpu::Cpu;
use gb_core::fault::Fault;
use gb_core::ram::Ram;

fn machine(program: &[u8]) -> Cpu {
    let mut rom = vec![0u8; 0x8000];
    rom[0x100..0x100 + program.len()].copy_from_slice(program);
    let bus = Bus::new(
        Ram::new(8 * 1024),
        rom.into_boxed_slice(),
        Ram::new(127),
        Ram::new(8 * 1024),
    );
    let mut cpu = Cpu::new();
    cpu.connect_bus(bus);
    cpu
}

#[test]
fn interrupt_of_highest_priority_is_served() {
    let mut cpu = machine(&[0x00]);
    cpu.set_ime(true);
    cpu.write(0xFFFF, 0x01);
    cpu.write(0xFF0F, 0x01);
    cpu.set_pc(0x0123);
    let sp = cpu.get_sp();
    assert_eq!(cpu.pending_interrupt(), Some(0));
    assert_eq!(cpu.interrupt_fault(), None);
    cpu.handle_interrupts();
    assert_eq!(cpu.get_pc(), 0x0040);
    assert!(!cpu.get_ime());
    assert_eq!(cpu.read(0xFF0F), 0x00);
    assert_eq!(cpu.get_sp(), sp.wrapping_sub(2));
    assert_eq!(cpu.read(sp.wrapping_sub(1)), 0x01);
    assert_eq!(cpu.read(sp.wrapping_sub(2)), 0x23);
    assert_eq!(cpu.read(0xFFFF), 0x01);
}

#[test]
fn a_step_serves_the_interrupt_before_the_instruction() {
    // The handler at 0x0040 holds a NOP (the cartridge is zero there).
    let mut cpu = machine(&[0x3C]);
    cpu.set_ime(true);
    cpu.write(0xFFFF, 0x01);
    cpu.write(0xFF0F, 0x01);
    let a = cpu.get_reg_a();
    assert_eq!(cpu.run_next_instruction(), None);
    assert_eq!(cpu.get_pc(), 0x0041);
    assert_eq!(cpu.get_reg_a(), a);
    assert_eq!(cpu.pop(), 0x0100);
    assert!(!cpu.get_ime());
    assert_eq!(cpu.read(0xFF0F), 0x00);
}

#[test]
fn interrupts_are_served_by_priority() {
    for (ie, iflag, index) in [
        (0x1Fu8, 0x1Fu8, 0u16),
        (0x1E, 0x1F, 1),
        (0x1F, 0x1C, 2),
        (0x18, 0x1F, 3),
        (0x10, 0x10, 4),
        (0xFF, 0x12, 1),
    ] {
        let mut cpu = machine(&[]);
        cpu.set_ime(true);
        cpu.write(0xFFFF, ie);
        cpu.write(0xFF0F, iflag);
        cpu.handle_interrupts();
        assert_eq!(cpu.get_pc(), 0x40 + 8 * index);
        assert_eq!(cpu.read(0xFF0F), iflag & !(1u8 << index));
        assert!(!cpu.get_ime());
    }
}

#[test]
fn nothing_is_served_without_cause() {
    for (ime, ie, iflag) in [
        (false, 0x1Fu8, 0x1Fu8),
        (true, 0x00, 0x1F),
        (true, 0x1F, 0x00),
        (true, 0x0A, 0x15),
        (true, 0xE0, 0xE0),
    ] {
        let mut cpu = machine(&[]);
        cpu.set_ime(ime);
        cpu.write(0xFFFF, ie);
        cpu.write(0xFF0F, iflag);
        assert_eq!(cpu.pending_interrupt(), None);
        cpu.handle_interrupts();
        assert_eq!(cpu.get_pc(), 0x0100);
        assert_eq!(cpu.get_sp(), 0xFFFE);
        assert_eq!(cpu.read(0xFF0F), iflag);
        assert_eq!(cpu.get_ime(), ime);
    }
}

#[test]
fn lowest_pending_bit() {
    assert_eq!(first_pending(0x00), None);
    assert_eq!(first_pending(0xE0), None);
    assert_eq!(first_pending(0x01), Some(0));
    assert_eq!(first_pending(0x1E), Some(1));
    assert_eq!(first_pending(0x14), Some(2));
    assert_eq!(first_pending(0xF8), Some(3));
    assert_eq!(first_pending(0x10), Some(4));
}

#[test]
fn interrupt_with_a_bad_stack_is_a_fault() {
    let mut cpu = machine(&[]);
    cpu.set_ime(true);
    cpu.write(0xFFFF, 0x04);
    cpu.write(0xFF0F, 0x04);
    cpu.set_sp(0x4000);
    assert_eq!(cpu.interrupt_fault(), Some(Fault::RomWrite(0x3FFF)));
    assert_eq!(
        cpu.step(),
        Step { serial: None, fault: Some(Fault::RomWrite(0x3FFF)) }
    );
    assert!(cpu.get_ime());
    assert_eq!(cpu.read(0xFF0F), 0x04);
    assert_eq!(cpu.get_pc(), 0x0100);
}

#[test]
fn serial_byte_goes_out_before_the_next_instruction() {
    // LD A,'P' ; LDH (0x01),A ; LD A,0x81 ; LDH (0x02),A ; NOP ; NOP
    let mut cpu = machine(&[0x3E, 0x50, 0xE0, 0x01, 0x3E, 0x81, 0xE0, 0x02, 0x00, 0x00]);
    for _ in 0..4 {
        assert_eq!(cpu.step(), Step { serial: None, fault: None });
    }
    assert_eq!(cpu.read(0xFF02), 0x81);
    assert_eq!(cpu.step(), Step { serial: Some(0x50), fault: None });
    assert_eq!(cpu.read(0xFF02), 0x00);
    assert_eq!(cpu.read(0xFF01), 0x50);
    assert_eq!(cpu.step(), Step { serial: None, fault: None });
}

#[test]
fn serial_poll_alone() {
    let mut cpu = Cpu::new();
    assert_eq!(cpu.poll_serial(), None);
    cpu.write(0xFF01, 0x21);
    cpu.write(0xFF02, 0x80);
    assert_eq!(cpu.poll_serial(), None);
    assert_eq!(cpu.read(0xFF02), 0x80);
    cpu.write(0xFF02, 0x81);
    assert_eq!(cpu.poll_serial(), Some(0x21));
    assert_eq!(cpu.read(0xFF02), 0x00);
    assert_eq!(cpu.poll_serial(), None);
    cpu.write(0xFF02, 0x81);
    assert_eq!(cpu.perform_instruction(0x00), Some(0x21));
    assert_eq!(cpu.get_pc(), 0x0101);
}

#[test]
fn serial_byte_goes_out_even_when_the_instruction_faults() {
    let mut cpu = machine(&[0x76]);
    cpu.write(0xFF01, 0x4F);
    cpu.write(0xFF02, 0x81);
    assert_eq!(
        cpu.step(),
        Step { serial: Some(0x4F), fault: Some(Fault::Halt) }
    );
    assert_eq!(cpu.read(0xFF02), 0x00);
}

#[test]
fn run_collects_output_and_stops_at_the_fault() {
    // Sends "OK" and halts.
    let program = [
        0x3E, 0x4F, 0xE0, 0x01, 0x3E, 0x81, 0xE0, 0x02, // 'O'
        0x3E, 0x4B, 0xE0, 0x01, 0x3E, 0x81, 0xE0, 0x02, // 'K'
        0x76,
    ];
    let mut cpu = machine(&program);
    let run = cpu.run(1000);
    assert_eq!(run.output, vec![0x4F, 0x4B]);
    assert_eq!(run.fault, Some(Fault::Halt));
    assert_eq!(cpu.get_pc(), 0x0110);

    let mut cpu = machine(&program);
    let run = cpu.run(5);
    assert_eq!(run.output, vec![0x4F]);
    assert_eq!(run.fault, None);
    assert_eq!(cpu.get_pc(), 0x010A);

    let mut cpu = machine(&program);
    let run = cpu.run(0);
    assert_eq!(run.output, Vec::<u8>::new());
    assert_eq!(run.fault, None);
    assert_eq!(cpu.get_pc(), 0x0100);
}
