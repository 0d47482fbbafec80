use gb_core::bus::Bus;
use gb_core::cpu::{bits_of, Cpu};
use gb_core::flags::Flags;
use gb_core::instr::{ShiftOp, Slot};
use gb_core::ram::Ram;

fn flags(z: bool, n: bool, h: bool, c: bool) -> Flags {
    Flags { z, n, h, c }
}

fn with_memory() -> Cpu {
    let bus = Bus::new(
        Ram::new(8 * 1024),
        vec![0u8; 0x8000].into_boxed_slice(),
        Ram::new(127),
        Ram::new(8 * 1024),
    );
    let mut cpu = Cpu::new();
    cpu.connect_bus(bus);
    cpu
}

#[test]
fn bits_of_every_byte() {
    for v in 0..=255u8 {
        let bits = bits_of(v);
        for i in 0..8 {
            assert_eq!(bits[i], v & (0x80 >> i) != 0);
        }
    }
}

#[test]
fn rotate_left_every_byte() {
    let mut cpu = Cpu::new();
    for v in 0..=255u8 {
        cpu.set_reg_b(v);
        cpu.set_flags(flags(true, true, true, v & 1 == 0));
        cpu.rlc(Slot::B);
        let r = v.rotate_left(1);
        assert_eq!(cpu.get_reg_b(), r);
        assert_eq!(cpu.get_flags(), flags(r == 0, false, false, v & 0x80 != 0));
    }
}

#[test]
fn rotate_right_every_byte() {
    let mut cpu = Cpu::new();
    for v in 0..=255u8 {
        cpu.set_reg_c(v);
        cpu.set_flags(flags(true, true, true, v & 1 == 0));
        cpu.rrc(Slot::C);
        let r = v.rotate_right(1);
        assert_eq!(cpu.get_reg_c(), r);
        assert_eq!(cpu.get_flags(), flags(r == 0, false, false, v & 1 != 0));
    }
}

#[test]
fn rotate_left_through_carry_every_byte() {
    let mut cpu = Cpu::new();
    for v in 0..=255u8 {
        for carry in [false, true] {
            cpu.set_reg_d(v);
            cpu.set_flags(flags(false, true, true, carry));
            cpu.rl(Slot::D);
            let r = (v << 1) | carry as u8;
            assert_eq!(cpu.get_reg_d(), r);
            assert_eq!(cpu.get_flags(), flags(r == 0, false, false, v & 0x80 != 0));
        }
    }
}

#[test]
fn rotate_right_through_carry_every_byte() {
    let mut cpu = Cpu::new();
    for v in 0..=255u8 {
        for carry in [false, true] {
            cpu.set_reg_e(v);
            cpu.set_flags(flags(false, true, true, carry));
            cpu.rr(Slot::E);
            let r = (v >> 1) | ((carry as u8) << 7);
            assert_eq!(cpu.get_reg_e(), r);
            assert_eq!(cpu.get_flags(), flags(r == 0, false, false, v & 1 != 0));
        }
    }
}

#[test]
fn shift_left_every_byte() {
    let mut cpu = Cpu::new();
    for v in 0..=255u8 {
        cpu.set_reg_h(v);
        cpu.set_flags(flags(false, true, true, true));
        cpu.sla(Slot::H);
        let r = v << 1;
        assert_eq!(cpu.get_reg_h(), r);
        assert_eq!(cpu.get_flags(), flags(r == 0, false, false, v & 0x80 != 0));
    }
}

#[test]
fn shift_right_arithmetic_every_byte() {
    let mut cpu = Cpu::new();
    for v in 0..=255u8 {
        cpu.set_reg_l(v);
        cpu.set_flags(flags(false, true, true, true));
        cpu.sra(Slot::L);
        let r = ((v as i8) >> 1) as u8;
        assert_eq!(cpu.get_reg_l(), r);
        assert_eq!(cpu.get_flags(), flags(r == 0, false, false, v & 1 != 0));
    }
}

#[test]
fn shift_right_logical_every_byte() {
    let mut cpu = Cpu::new();
    for v in 0..=255u8 {
        cpu.set_reg_a(v);
        cpu.set_flags(flags(false, true, true, true));
        cpu.srl(Slot::A);
        let r = v >> 1;
        assert_eq!(cpu.get_reg_a(), r);
        assert_eq!(cpu.get_flags(), flags(r == 0, false, false, v & 1 != 0));
    }
}

#[test]
fn swap_nibbles_every_byte() {
    let mut cpu = Cpu::new();
    for v in 0..=255u8 {
        cpu.set_reg_b(v);
        cpu.set_flags(flags(false, true, true, true));
        cpu.swap(Slot::B);
        let r = (v << 4) | (v >> 4);
        assert_eq!(cpu.get_reg_b(), r);
        assert_eq!(cpu.get_flags(), flags(r == 0, false, false, false));
    }
}

#[test]
fn test_set_and_clear_every_bit() {
    let mut cpu = Cpu::new();
    for v in 0..=255u8 {
        for n in 0..8u8 {
            for carry in [false, true] {
                cpu.set_reg_c(v);
                cpu.set_flags(flags(false, true, false, carry));
                cpu.bit(n, Slot::C);
                assert_eq!(cpu.get_reg_c(), v);
                assert_eq!(cpu.get_flags(), flags(v & (1 << n) == 0, false, true, carry));
            }
            let before = cpu.get_flags();
            cpu.set_reg_c(v);
            cpu.set(n, Slot::C);
            assert_eq!(cpu.get_reg_c(), v | (1 << n));
            cpu.set_reg_c(v);
            cpu.res(n, Slot::C);
            assert_eq!(cpu.get_reg_c(), v & !(1 << n));
            assert_eq!(cpu.get_flags(), before);
        }
    }
}

#[test]
fn operations_on_the_byte_at_hl() {
    let mut cpu = with_memory();
    cpu.set_reg_hl(0xC010);
    cpu.write(0xC010, 0b1000_0001);
    cpu.rlc(Slot::AtHl);
    assert_eq!(cpu.read(0xC010), 0b0000_0011);
    assert_eq!(cpu.get_flags(), flags(false, false, false, true));
    cpu.shift(ShiftOp::Swap, Slot::AtHl);
    assert_eq!(cpu.read(0xC010), 0b0011_0000);
    cpu.shift(ShiftOp::Srl, Slot::AtHl);
    assert_eq!(cpu.read(0xC010), 0b0001_1000);
    cpu.set(0, Slot::AtHl);
    assert_eq!(cpu.read(0xC010), 0b0001_1001);
    cpu.res(4, Slot::AtHl);
    assert_eq!(cpu.read(0xC010), 0b0000_1001);
    cpu.bit(3, Slot::AtHl);
    assert_eq!(cpu.get_z_flag(), false);
    cpu.bit(2, Slot::AtHl);
    assert_eq!(cpu.get_z_flag(), true);
    cpu.increment_register(Slot::AtHl);
    assert_eq!(cpu.read(0xC010), 0b0000_1010);
    cpu.decrement_register(Slot::AtHl);
    cpu.decrement_register(Slot::AtHl);
    assert_eq!(cpu.read(0xC010), 0b0000_1000);
    assert_eq!(cpu.get_reg_hl(), 0xC010);
}

fn shifted(kind: u8, v: u8, carry: bool) -> (u8, bool) {
    match kind {
        0 => (v.rotate_left(1), v & 0x80 != 0),
        1 => (v.rotate_right(1), v & 1 != 0),
        2 => ((v << 1) | carry as u8, v & 0x80 != 0),
        3 => ((v >> 1) | ((carry as u8) << 7), v & 1 != 0),
        4 => (v << 1, v & 0x80 != 0),
        5 => ((v >> 1) | (v & 0x80), v & 1 != 0),
        6 => ((v << 4) | (v >> 4), false),
        _ => (v >> 1, v & 1 != 0),
    }
}

#[test]
fn prefixed_page_is_regular() {
    // Each code of the prefixed page, run with its code at the program
    // counter, against the operation and operand that its fields name.
    let initial = [0xA5u8, 0x5A, 0x81, 0x7E, 0xC0, 0x00, 0x3C, 0xFF];
    for code in 0..=255u8 {
        for carry in [false, true] {
            let mut cpu = with_memory();
            cpu.set_reg_b(initial[0]);
            cpu.set_reg_c(initial[1]);
            cpu.set_reg_d(initial[2]);
            cpu.set_reg_e(initial[3]);
            cpu.set_reg_hl(0xC000);
            cpu.write(0xC000, initial[6]);
            cpu.set_reg_a(initial[7]);
            cpu.set_pc(0xC100);
            cpu.write(0xC100, code);
            cpu.set_flags(flags(false, true, false, carry));
            cpu.perform_cb_instruction();
            assert_eq!(cpu.get_pc(), 0xC100);
            let got = [
                cpu.get_reg_b(),
                cpu.get_reg_c(),
                cpu.get_reg_d(),
                cpu.get_reg_e(),
                cpu.get_reg_h(),
                cpu.get_reg_l(),
                cpu.read(0xC000),
                cpu.get_reg_a(),
            ];
            let operand = (code & 7) as usize;
            let y = (code >> 3) & 7;
            let v = initial[operand];
            let (value, expected_flags) = match code >> 6 {
                0 => {
                    let (r, c) = shifted(y, v, carry);
                    (r, flags(r == 0, false, false, c))
                }
                1 => (v, flags(v & (1 << y) == 0, false, true, carry)),
                2 => (v & !(1u8 << y), flags(false, true, false, carry)),
                _ => (v | (1u8 << y), flags(false, true, false, carry)),
            };
            for i in 0..8 {
                // The byte at HL is found through H and L: where one of them
                // is the operand, the cell is no longer the one looked at.
                if i == operand {
                    assert_eq!(got[i], value, "code {:#04x}", code);
                } else if i != 6 || (operand != 4 && operand != 5) {
                    assert_eq!(got[i], initial[i], "code {:#04x}", code);
                }
            }
            assert_eq!(cpu.get_flags(), expected_flags, "code {:#04x}", code);
        }
    }
}
