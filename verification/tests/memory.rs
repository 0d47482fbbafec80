use gb_core::bus::Bus;
use gb_core::io::io::IO;
use gb_core::io::lcd::LCD;
use gb_core::io::sound::SoundController;
use gb_core::ram::Ram;

fn rom_with(bytes: &[(usize, u8)], len: usize) -> Box<[u8]> {
    let mut rom = vec![0u8; len];
    for &(at, b) in bytes {
        rom[at] = b;
    }
    rom.into_boxed_slice()
}

fn full_bus(rom: Box<[u8]>) -> Bus {
    Bus::new(Ram::new(8 * 1024), rom, Ram::new(127), Ram::new(8 * 1024))
}

#[test]
fn ram_starts_zero_and_keeps_what_is_written() {
    let mut ram = Ram::new(16);
    assert_eq!(ram.capacity(), 16);
    for i in 0..16 {
        assert_eq!(ram.read(i), 0);
    }
    ram.write(3, 0xAB);
    ram.write(15, 0xCD);
    assert_eq!(ram.read(3), 0xAB);
    assert_eq!(ram.read(15), 0xCD);
    assert_eq!(ram.read(4), 0);
    assert_eq!(Ram::default().capacity(), 0);
}

#[test]
fn sound_registers_are_plain_storage() {
    let mut sound = SoundController::new();
    for addr in 0xFF10..0xFF27 {
        assert_eq!(sound.read(addr), 0);
    }
    sound.write(0xFF10, 0x80);
    sound.write(0xFF26, 0x8F);
    assert_eq!(sound.read(0xFF10), 0x80);
    assert_eq!(sound.read(0xFF26), 0x8F);
    assert_eq!(sound.read(0xFF11), 0);
    assert_eq!(SoundController::default().read(0xFF10), 0);
}

#[test]
fn lcd_line_register_starts_in_vertical_blank() {
    let mut lcd = LCD::new();
    assert_eq!(lcd.read(0xFF44), 0x90);
    for addr in 0xFF40..0xFF4C {
        if addr != 0xFF44 {
            assert_eq!(lcd.read(addr), 0);
        }
    }
    lcd.write(0xFF40, 0x91);
    lcd.write(0xFF4B, 0x07);
    assert_eq!(lcd.read(0xFF40), 0x91);
    assert_eq!(lcd.read(0xFF4B), 0x07);
    assert_eq!(lcd.read(0xFF44), 0x90);
    assert_eq!(LCD::default().read(0xFF44), 0);
}

#[test]
fn io_bank_routes_to_its_parts() {
    let mut io = IO::new();
    assert_eq!(io.read(0xFF44), 0x90);
    assert_eq!(io.read(0xFF00), 0);
    assert_eq!(io.read(0xFF7F), 0);
    io.write(0xFF01, 0x41);
    io.write(0xFF02, 0x81);
    io.write(0xFF07, 0x05);
    io.write(0xFF10, 0x11);
    io.write(0xFF26, 0x22);
    io.write(0xFF27, 0x33);
    io.write(0xFF3F, 0x44);
    io.write(0xFF40, 0x55);
    io.write(0xFF4B, 0x66);
    io.write(0xFF4C, 0x77);
    io.write(0xFF7F, 0x88);
    assert_eq!(io.read(0xFF01), 0x41);
    assert_eq!(io.read(0xFF02), 0x81);
    assert_eq!(io.read(0xFF07), 0x05);
    assert_eq!(io.read(0xFF10), 0x11);
    assert_eq!(io.read(0xFF26), 0x22);
    assert_eq!(io.read(0xFF27), 0x33);
    assert_eq!(io.read(0xFF3F), 0x44);
    assert_eq!(io.read(0xFF40), 0x55);
    assert_eq!(io.read(0xFF4B), 0x66);
    assert_eq!(io.read(0xFF4C), 0x77);
    assert_eq!(io.read(0xFF7F), 0x88);
    assert_eq!(io.read(0xFF44), 0x90);
    assert_eq!(IO::default().read(0xFF44), 0x90);
}

#[test]
fn bus_routes_each_region() {
    let mut bus = full_bus(rom_with(&[(0x0000, 0x11), (0x0100, 0x22), (0x7FFF, 0x33)], 0x8000));
    assert_eq!(bus.read(0x0000), 0x11);
    assert_eq!(bus.read(0x0100), 0x22);
    assert_eq!(bus.read(0x7FFF), 0x33);
    assert_eq!(bus.read(0xFF44), 0x90);
    assert_eq!(bus.read(0xFFFF), 0);
    assert_eq!(bus.read(0xFF0F), 0);

    bus.write(0x8000, 0x01);
    bus.write(0x9FFF, 0x02);
    bus.write(0xC000, 0x03);
    bus.write(0xDFFF, 0x04);
    bus.write(0xFF80, 0x05);
    bus.write(0xFFFE, 0x06);
    bus.write(0xFF01, 0x07);
    bus.write(0xFF0F, 0x1F);
    bus.write(0xFFFF, 0x15);
    assert_eq!(bus.read(0x8000), 0x01);
    assert_eq!(bus.read(0x9FFF), 0x02);
    assert_eq!(bus.read(0xC000), 0x03);
    assert_eq!(bus.read(0xDFFF), 0x04);
    assert_eq!(bus.read(0xFF80), 0x05);
    assert_eq!(bus.read(0xFFFE), 0x06);
    assert_eq!(bus.read(0xFF01), 0x07);
    assert_eq!(bus.read(0xFF0F), 0x1F);
    assert_eq!(bus.read(0xFFFF), 0x15);
    assert_eq!(bus.read(0x8001), 0);
    assert_eq!(bus.read(0xC001), 0);
}

#[test]
fn bus_knows_what_is_mapped() {
    let bus = full_bus(rom_with(&[], 0x8000));
    assert!(bus.is_readable(0x0000));
    assert!(bus.is_readable(0x7FFF));
    assert!(!bus.is_writable(0x0000));
    assert!(!bus.is_writable(0x7FFF));
    assert!(bus.is_writable(0x8000));
    assert!(bus.is_writable(0x9FFF));
    assert!(!bus.is_readable(0xA000));
    assert!(!bus.is_readable(0xBFFF));
    assert!(bus.is_writable(0xC000));
    assert!(bus.is_writable(0xDFFF));
    assert!(!bus.is_readable(0xE000));
    assert!(!bus.is_writable(0xFEFF));
    assert!(bus.is_writable(0xFF00));
    assert!(bus.is_writable(0xFF0F));
    assert!(bus.is_writable(0xFF7F));
    assert!(bus.is_writable(0xFF80));
    assert!(bus.is_writable(0xFFFE));
    assert!(bus.is_writable(0xFFFF));
}

#[test]
fn short_regions_leave_the_rest_unmapped() {
    let bus = Bus::new(Ram::new(16), rom_with(&[(3, 9)], 4), Ram::new(2), Ram::new(0));
    assert!(bus.is_readable(0x0003));
    assert_eq!(bus.read(0x0003), 9);
    assert!(!bus.is_readable(0x0004));
    assert!(bus.is_writable(0xC00F));
    assert!(!bus.is_writable(0xC010));
    assert!(bus.is_writable(0xFF81));
    assert!(!bus.is_writable(0xFF82));
    assert!(!bus.is_readable(0x8000));
    let bare = Bus::default();
    assert!(!bare.is_readable(0x0000));
    assert!(!bare.is_readable(0xC000));
    assert!(bare.is_writable(0xFF02));
    assert_eq!(bare.read(0xFF44), 0x90);
}

#[test]
fn interrupt_registers_are_byte_cells() {
    let mut bus = full_bus(rom_with(&[], 0x8000));
    bus.write(0xFFFF, 0x1F);
    assert_eq!(bus.read(0xFFFF), 0x1F);
    bus.write(0xFFFF, 0x04);
    assert_eq!(bus.read(0xFFFF), 0x04);
    bus.write(0xFF0F, 0x10);
    assert_eq!(bus.read(0xFF0F), 0x10);
    assert_eq!(bus.read(0xFFFF), 0x04);
}
