use gb_core::cpu::Cpu;
use gb_core::flags::Flags;

#[test]
fn reg_af() {
    let mut cpu = Cpu::new();
    assert_eq!(cpu.get_reg_af(), 0x01B0);
    cpu.set_reg_af(0b1010101010101010);
    assert_eq!(cpu.get_reg_af(), 0b1010101010100000);
    cpu.set_reg_a(0b11100000);
    assert_eq!(cpu.get_reg_af(), 0b1110000010100000);
    assert_eq!(cpu.get_reg_a(), 0b11100000);
}

#[test]
fn reg_bc() {
    let mut cpu = Cpu::new();
    assert_eq!(cpu.get_reg_bc(), 0x0013);
    cpu.set_reg_bc(0b1010101010101010);
    assert_eq!(cpu.get_reg_bc(), 0b1010101010101010);
    cpu.set_reg_b(0b11100000);
    assert_eq!(cpu.get_reg_bc(), 0b1110000010101010);
    assert_eq!(cpu.get_reg_b(), 0b11100000);
    cpu.set_reg_c(0b00000101);
    assert_eq!(cpu.get_reg_bc(), 0b1110000000000101);
    assert_eq!(cpu.get_reg_c(), 0b00000101);
}

#[test]
fn reg_de() {
    let mut cpu = Cpu::new();
    assert_eq!(cpu.get_reg_de(), 0x00D8);
    cpu.set_reg_de(0b1010101010101010);
    assert_eq!(cpu.get_reg_de(), 0b1010101010101010);
    cpu.set_reg_d(0b11100000);
    assert_eq!(cpu.get_reg_de(), 0b1110000010101010);
    assert_eq!(cpu.get_reg_d(), 0b11100000);
    cpu.set_reg_e(0b00000101);
    assert_eq!(cpu.get_reg_de(), 0b1110000000000101);
    assert_eq!(cpu.get_reg_e(), 0b00000101);
}

#[test]
fn reg_hl() {
    let mut cpu = Cpu::new();
    assert_eq!(cpu.get_reg_hl(), 0x014D);
    cpu.set_reg_hl(0b1010101010101010);
    assert_eq!(cpu.get_reg_hl(), 0b1010101010101010);
    cpu.set_reg_h(0b11100000);
    assert_eq!(cpu.get_reg_hl(), 0b1110000010101010);
    assert_eq!(cpu.get_reg_h(), 0b11100000);
    cpu.set_reg_l(0b00000101);
    assert_eq!(cpu.get_reg_hl(), 0b1110000000000101);
    assert_eq!(cpu.get_reg_l(), 0b00000101);
}

#[test]
fn reset_state() {
    let cpu = Cpu::new();
    assert_eq!(cpu.get_reg_a(), 0x01);
    assert_eq!(cpu.get_reg_f(), 0xB0);
    assert_eq!(cpu.get_reg_bc(), 0x0013);
    assert_eq!(cpu.get_reg_de(), 0x00D8);
    assert_eq!(cpu.get_reg_hl(), 0x014D);
    assert_eq!(cpu.get_sp(), 0xFFFE);
    assert_eq!(cpu.get_pc(), 0x0100);
    assert!(!cpu.get_ime());
    assert_eq!(cpu.get_flags(), Flags { z: true, n: false, h: true, c: true });
}

#[test]
fn pair_and_halves_are_aliased_for_every_word() {
    let mut cpu = Cpu::new();
    let mut v: u32 = 0;
    while v <= 0xFFFF {
        let w = v as u16;
        cpu.set_reg_bc(w);
        assert_eq!(cpu.get_reg_b(), (w >> 8) as u8);
        assert_eq!(cpu.get_reg_c(), (w & 0xFF) as u8);
        assert_eq!(cpu.get_reg_bc(), w);
        cpu.set_reg_de(w);
        assert_eq!(cpu.get_reg_d(), (w >> 8) as u8);
        assert_eq!(cpu.get_reg_e(), (w & 0xFF) as u8);
        assert_eq!(cpu.get_reg_de(), w);
        cpu.set_reg_hl(w);
        assert_eq!(cpu.get_reg_h(), (w >> 8) as u8);
        assert_eq!(cpu.get_reg_l(), (w & 0xFF) as u8);
        assert_eq!(cpu.get_reg_hl(), w);
        cpu.set_reg_af(w);
        assert_eq!(cpu.get_reg_a(), (w >> 8) as u8);
        assert_eq!(cpu.get_reg_f(), (w & 0xF0) as u8);
        assert_eq!(cpu.get_reg_af(), w & 0xFFF0);
        v += 257;
    }
}

#[test]
fn each_flag_is_one_bit_of_f() {
    let mut cpu = Cpu::new();
    cpu.reset_flags();
    assert_eq!(cpu.get_reg_f(), 0x00);
    cpu.set_z_flag(true);
    assert_eq!(cpu.get_reg_f(), 0x80);
    assert!(cpu.get_z_flag());
    cpu.set_n_flag(true);
    assert_eq!(cpu.get_reg_f(), 0xC0);
    assert!(cpu.get_n_flag());
    cpu.set_h_flag(true);
    assert_eq!(cpu.get_reg_f(), 0xE0);
    assert!(cpu.get_h_flag());
    cpu.set_c_flag(true);
    assert_eq!(cpu.get_reg_f(), 0xF0);
    assert!(cpu.get_c_flag());
    cpu.set_z_flag(false);
    assert_eq!(cpu.get_reg_f(), 0x70);
    assert!(!cpu.get_z_flag());
    cpu.set_h_flag(false);
    assert_eq!(cpu.get_reg_f(), 0x50);
    cpu.set_flags(Flags { z: true, n: false, h: false, c: true });
    assert_eq!(cpu.get_reg_f(), 0x90);
    assert_eq!(cpu.get_flags(), Flags { z: true, n: false, h: false, c: true });
}

#[test]
fn register_bits_come_most_significant_first() {
    let mut cpu = Cpu::new();
    cpu.set_reg_b(0b1010_0001);
    assert_eq!(
        cpu.view_reg_b(),
        [true, false, true, false, false, false, false, true]
    );
    cpu.set_reg_c(0b0100_0010);
    assert_eq!(
        cpu.view_reg_c(),
        [false, true, false, false, false, false, true, false]
    );
}

#[test]
fn setters_leave_the_other_registers() {
    let mut cpu = Cpu::new();
    cpu.set_sp(0x1234);
    cpu.set_pc(0x4321);
    cpu.set_ime(true);
    assert_eq!(cpu.get_sp(), 0x1234);
    assert_eq!(cpu.get_pc(), 0x4321);
    assert!(cpu.get_ime());
    assert_eq!(cpu.get_reg_af(), 0x01B0);
    assert_eq!(cpu.get_reg_hl(), 0x014D);
}
