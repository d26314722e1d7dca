use nes_emu::mapper::{
    check_covers_prg_rom, create_mapper, locate, AnyMapper, Mapper, Mapper0, Mapper1, Mapper2,
    Mapper3, Mapper4,
};
use nes_emu::rom::{Mirroring, Rom};

// a cartridge whose byte at place i is the number of its 1 KiB block
fn rom(mapper: u8, prg_kib: usize, chr_kib: usize) -> Rom {
    let mut rom = Rom::empty();
    rom.mapper = mapper;
    rom.prg_rom = (0..prg_kib * 1024).map(|i| (i / 1024) as u8).collect();
    rom.chr_rom = (0..chr_kib * 1024).map(|i| 0x80 | (i / 1024) as u8).collect();
    rom.screen_mirroring = Mirroring::HORIZONTAL;
    rom
}

#[test]
fn locate_finds_places_inside_only() {
    assert_eq!(locate(100, 3, 16, 2), Some(35));
    assert_eq!(locate(100, 3, 16, 6), Some(99));
    assert_eq!(locate(100, 4, 16, 6), None);
    assert_eq!(locate(0, 0, 16, 0), None);
    assert_eq!(locate(usize::MAX, 1, usize::MAX, usize::MAX), None);
}

#[test]
fn create_mapper_picks_the_kind() {
    assert!(matches!(create_mapper(rom(0, 32, 8)), AnyMapper::M0(_)));
    assert!(matches!(create_mapper(rom(1, 32, 8)), AnyMapper::M1(_)));
    assert!(matches!(create_mapper(rom(2, 32, 8)), AnyMapper::M2(_)));
    assert!(matches!(create_mapper(rom(3, 32, 8)), AnyMapper::M3(_)));
    assert!(matches!(create_mapper(rom(4, 32, 8)), AnyMapper::M4(_)));
    let mapper = create_mapper(rom(2, 64, 8));
    assert_eq!(mapper.read_prg_rom(0x8000), 0);
    assert_eq!(mapper.read_prg_rom(0xFFFF), 63);
    assert_eq!(mapper.mirroring(), Mirroring::HORIZONTAL);
    assert!(!mapper.is_chr_ram());
}

#[test]
fn mapper0_mirrors_a_single_page() {
    let mut mapper = Mapper0::new();
    assert!(!mapper.can_read_prg_rom(0x8000));
    mapper.set_rom(rom(0, 16, 8));
    assert_eq!(mapper.read_prg_rom(0x8000), 0);
    assert_eq!(mapper.read_prg_rom(0xBFFF), 15);
    assert_eq!(mapper.read_prg_rom(0xC000), 0);
    assert_eq!(mapper.read_prg_rom(0xFFFF), 15);
    assert!(check_covers_prg_rom(&mapper));
    assert!(!mapper.can_read_prg_rom(0x7FFF));

    mapper.set_rom(rom(0, 32, 8));
    assert_eq!(mapper.read_prg_rom(0xC000), 16);
    assert_eq!(mapper.read_prg_rom(0xFFFF), 31);
    assert_eq!(mapper.read_chr_rom(0x1FFF), 0x87);
    assert!(!mapper.can_access_chr_rom(0x2000));
    // writes change nothing
    mapper.write(0x8000, 0xFF);
    mapper.write_chr_rom(0, 0x11);
    mapper.write_prg_ram(0x6000, 0x22);
    assert_eq!(mapper.read_chr_rom(0), 0x80);
    assert_eq!(mapper.read_prg_ram(0x6000), 0);
    assert!(!mapper.is_irq());

    mapper.set_rom(rom(0, 8, 8));
    assert!(!check_covers_prg_rom(&mapper));
    assert!(mapper.can_read_prg_rom(0x9FFF));
    assert!(!mapper.can_read_prg_rom(0xA000));
}

fn serial(mapper: &mut Mapper1, addr: u16, value: u8) {
    for bit in 0..5 {
        mapper.write(addr, (value >> bit) & 1);
    }
}

#[test]
fn mapper1_shift_register() {
    let mut mapper = Mapper1::new();
    assert_eq!(mapper.control, 0x0C);
    mapper.write(0x8000, 1);
    mapper.write(0x8000, 0);
    assert_eq!(mapper.shift_count, 2);
    assert_eq!(mapper.shift_register, 0b01100);
    mapper.write(0x8000, 0x80);
    assert_eq!((mapper.shift_register, mapper.shift_count), (0x10, 0));
    assert_eq!(mapper.control, 0x0C);
    serial(&mut mapper, 0x9FFF, 0b10110);
    assert_eq!(mapper.control, 0b10110);
    assert_eq!((mapper.shift_register, mapper.shift_count), (0x10, 0));
    serial(&mut mapper, 0xA000, 0b00101);
    assert_eq!(mapper.chr_bank0, 0b00101);
    serial(&mut mapper, 0xC000, 0b11111);
    assert_eq!(mapper.chr_bank1, 0b11111);
    serial(&mut mapper, 0xE000, 0b01001);
    assert_eq!(mapper.prg_bank, 0b01001);
}

#[test]
fn mapper1_mirroring_follows_control() {
    let mut mapper = Mapper1::new();
    for (value, expected) in [
        (0, Mirroring::VERTICAL),
        (1, Mirroring::HORIZONTAL),
        (2, Mirroring::VERTICAL),
        (3, Mirroring::HORIZONTAL),
    ] {
        serial(&mut mapper, 0x8000, value);
        assert_eq!(mapper.mirroring(), expected);
    }
}

#[test]
fn mapper1_program_banks() {
    let mut mapper = Mapper1::new();
    mapper.set_rom(rom(1, 256, 8));
    // power-on: mode 3, bank 0 at $8000, last bank at $C000
    assert_eq!(mapper.read_prg_rom(0x8000), 0);
    assert_eq!(mapper.read_prg_rom(0xC001), 15 * 16);
    assert_eq!(mapper.read_prg_rom(0xFFFF), 255);
    // the address $C000 always reads 1
    assert_eq!(mapper.read_prg_rom(0xC000), 1);
    serial(&mut mapper, 0xE000, 5);
    assert_eq!(mapper.read_prg_rom(0x8000), 5 * 16);
    assert_eq!(mapper.read_prg_rom(0xBFFF), 5 * 16 + 15);
    assert_eq!(mapper.read_prg_rom(0xC001), 15 * 16);
    // mode 2: first bank at $8000, selected bank at $C000
    serial(&mut mapper, 0x8000, 0b01000);
    assert_eq!(mapper.read_prg_rom(0x8000), 0);
    assert_eq!(mapper.read_prg_rom(0xC001), 5 * 16);
    // modes 0 and 1: 32 KiB at $8000, low bit of the bank ignored
    serial(&mut mapper, 0x8000, 0b00000);
    assert_eq!(mapper.read_prg_rom(0x8000), 4 * 16);
    assert_eq!(mapper.read_prg_rom(0xFFFF), 4 * 16 + 31);
    // bit 4 of the first character bank selects the upper 256 KiB
    serial(&mut mapper, 0xA000, 0x10);
    assert!(!mapper.can_read_prg_rom(0x8000));

    let mut large = Mapper1::new();
    large.set_rom(rom(1, 512, 8));
    serial(&mut large, 0xE000, 3);
    assert_eq!(large.read_prg_rom(0x8000), (3 * 16) as u8);
    serial(&mut large, 0xA000, 0x10);
    assert_eq!(large.read_prg_rom(0x8000), ((16 + 3) * 16 % 256) as u8);
    assert_eq!(large.read_prg_rom(0xFFFF), 255);
}

#[test]
fn mapper1_program_ram() {
    let mut mapper = Mapper1::new();
    assert_eq!(mapper.prg_ram.len(), 8192);
    assert_eq!(mapper.read_prg_ram(0x6000), 0xFF);
    mapper.write_prg_ram(0x6000, 0x12);
    mapper.write_prg_ram(0x7FFF, 0x34);
    assert_eq!(mapper.read_prg_ram(0x6000), 0x12);
    assert_eq!(mapper.read_prg_ram(0x7FFF), 0x34);
    assert_eq!(mapper.prg_ram[0], 0x12);
    assert!(!mapper.can_access_prg_ram(0x5FFF));
    assert!(!mapper.can_access_prg_ram(0x8000));
    // fixed values
    mapper.write_prg_ram(0x628E, 0x77);
    assert_eq!(mapper.read_prg_ram(0x628E), 0x02);
    assert_eq!(mapper.prg_ram[0x28E], 0x77);
    for addr in 0x6007..=0x600B {
        assert_eq!(mapper.read_prg_ram(addr), 0xFF);
    }
    mapper.write_prg_ram(0x727E, 0x55);
    assert_eq!(mapper.read_prg_ram(0x727E), 0x00);
    assert_eq!(mapper.read_prg_ram(0x727F), 0x00);

    mapper.load_prg_ram(&Vec::new());
    assert_eq!(mapper.prg_ram.len(), 8192);
    mapper.load_prg_ram(&vec![9, 8, 7]);
    assert_eq!(mapper.prg_ram, vec![9, 8, 7]);
    assert_eq!(mapper.read_prg_ram(0x6002), 7);
    assert!(!mapper.can_access_prg_ram(0x6003));

    let mut saved = rom(1, 32, 8);
    saved.save_data = vec![1; 8192];
    let mut mapper = Mapper1::new();
    mapper.set_rom(saved);
    assert_eq!(mapper.read_prg_ram(0x6100), 1);
}

#[test]
fn mapper1_character_memory() {
    let mut mapper = Mapper1::new();
    mapper.set_rom(rom(1, 32, 8));
    assert_eq!(mapper.chr_rom_addr(0x1234), 0x1234);
    assert_eq!(mapper.read_chr_rom(0x0400), 0x81);
    mapper.write_chr_rom(0x0400, 0x3C);
    assert_eq!(mapper.read_chr_rom(0x0400), 0x3C);
    assert!(!mapper.can_access_chr_rom(0x2000));
}

#[test]
fn mapper2_switches_the_low_bank() {
    let mut mapper = Mapper2::new();
    mapper.set_rom(rom(2, 128, 8));
    assert_eq!(mapper.read_prg_rom(0x8000), 0);
    assert_eq!(mapper.read_prg_rom(0xC000), 7 * 16);
    assert_eq!(mapper.read_prg_rom(0xFFFF), 127);
    mapper.write(0x8000, 0x03);
    assert_eq!(mapper.read_prg_rom(0x8000), 3 * 16);
    assert_eq!(mapper.read_prg_rom(0xBFFF), 3 * 16 + 15);
    assert_eq!(mapper.read_prg_rom(0xC000), 7 * 16);
    mapper.write(0xFFFF, 0xF7);
    assert_eq!(mapper.read_prg_rom(0x8000), 7 * 16);
    mapper.write(0x8000, 0x08);
    assert!(!mapper.can_read_prg_rom(0x8000));
    assert!(mapper.can_read_prg_rom(0xC000));
    assert!(!check_covers_prg_rom(&mapper));
    mapper.write_chr_rom(3, 0x42);
    assert_eq!(mapper.read_chr_rom(3), 0x42);
    assert_eq!(mapper.mirroring(), Mirroring::HORIZONTAL);
}

#[test]
fn mapper3_switches_the_character_bank() {
    let mut mapper = Mapper3::new();
    mapper.set_rom(rom(3, 32, 32));
    assert_eq!(mapper.read_prg_rom(0x8000), 0);
    assert_eq!(mapper.read_prg_rom(0xFFFF), 31);
    assert_eq!(mapper.read_chr_rom(0x0000), 0x80);
    mapper.write(0x8000, 0x02);
    assert_eq!(mapper.read_chr_rom(0x0000), 0x80 | 16);
    assert_eq!(mapper.read_chr_rom(0x1FFF), 0x80 | 23);
    mapper.write(0x8000, 0xFF);
    assert_eq!(mapper.read_chr_rom(0x0400), 0x80 | 25);
    mapper.set_rom(rom(3, 32, 8));
    assert!(!mapper.can_access_chr_rom(0x0000));
    mapper.write(0x8000, 0x00);
    assert!(mapper.can_access_chr_rom(0x1FFF));
    assert!(!mapper.can_access_chr_rom(0x2000));
}

#[test]
fn mapper4_registers() {
    let mut mapper = Mapper4::new();
    mapper.write(0x8000, 0x46);
    assert_eq!(mapper.bank_select, 0x46);
    mapper.write(0x8001, 0x0A);
    assert_eq!(mapper.bank_data[6], 0x0A);
    mapper.write(0xA000, 0x01);
    assert_eq!(mapper.mirroring(), Mirroring::HORIZONTAL);
    mapper.write(0xA000, 0x02);
    assert_eq!(mapper.mirroring(), Mirroring::VERTICAL);
    mapper.write(0xA001, 0x80);
    assert_eq!(mapper.prg_ram_protect, 0x80);
    mapper.write(0xC000, 0x07);
    assert_eq!(mapper.irq_latch, 7);
    mapper.irq_latch_counter = 3;
    mapper.write(0xC001, 0x00);
    assert!(mapper.irq_reload);
    assert_eq!(mapper.irq_latch_counter, 0);
    mapper.write(0xE001, 0x00);
    assert!(mapper.irq_enable);
    mapper.is_irq = true;
    mapper.write(0xE000, 0x00);
    assert!(!mapper.irq_enable);
    assert!(!mapper.is_irq);
}

#[test]
fn mapper4_program_banks() {
    let mut mapper = Mapper4::new();
    mapper.set_rom(rom(4, 128, 8));
    mapper.write(0x8000, 6);
    mapper.write(0x8001, 3);
    mapper.write(0x8000, 7);
    mapper.write(0x8001, 5);
    // R6, R7, second last, last
    assert_eq!(mapper.read_prg_rom(0x8000), 3 * 8);
    assert_eq!(mapper.read_prg_rom(0xA000), 5 * 8);
    assert_eq!(mapper.read_prg_rom(0xC000), 14 * 8);
    assert_eq!(mapper.read_prg_rom(0xE000), 15 * 8);
    assert_eq!(mapper.read_prg_rom(0xFFFF), 127);
    // second last, R7, R6, last
    mapper.write(0x8000, 0x40);
    assert_eq!(mapper.read_prg_rom(0x8000), 14 * 8);
    assert_eq!(mapper.read_prg_rom(0xBFFF), 5 * 8 + 7);
    assert_eq!(mapper.read_prg_rom(0xC000), 3 * 8);
    assert_eq!(mapper.read_prg_rom(0xE000), 15 * 8);
    mapper.write(0x8000, 0x47);
    mapper.write(0x8001, 16);
    assert!(!mapper.can_read_prg_rom(0xA000));
    let mut small = Mapper4::new();
    small.set_rom(rom(4, 8, 8));
    assert!(!small.can_read_prg_rom(0xE000));
}

#[test]
fn mapper4_character_banks() {
    let mut mapper = Mapper4::new();
    mapper.set_rom(rom(4, 32, 64));
    for (register, bank) in [(0u8, 8u8), (1, 10), (2, 20), (3, 21), (4, 22), (5, 23)] {
        mapper.write(0x8000, register);
        mapper.write(0x8001, bank);
    }
    mapper.write(0x8000, 0x00);
    assert_eq!(mapper.get_chr_rom_addr(0x0000), 8 * 1024);
    assert_eq!(mapper.read_chr_rom(0x0000), 0x80 | 8);
    assert_eq!(mapper.read_chr_rom(0x07FF), 0x80 | 9);
    assert_eq!(mapper.read_chr_rom(0x0800), 0x80 | 10);
    assert_eq!(mapper.read_chr_rom(0x1000), 0x80 | 20);
    assert_eq!(mapper.read_chr_rom(0x1400), 0x80 | 21);
    assert_eq!(mapper.read_chr_rom(0x1800), 0x80 | 22);
    assert_eq!(mapper.read_chr_rom(0x1FFF), 0x80 | 23);
    mapper.write(0x8000, 0x80);
    assert_eq!(mapper.read_chr_rom(0x0000), 0x80 | 20);
    assert_eq!(mapper.read_chr_rom(0x0400), 0x80 | 21);
    assert_eq!(mapper.read_chr_rom(0x0800), 0x80 | 22);
    assert_eq!(mapper.read_chr_rom(0x0C00), 0x80 | 23);
    assert_eq!(mapper.read_chr_rom(0x1000), 0x80 | 8);
    assert_eq!(mapper.read_chr_rom(0x17FF), 0x80 | 9);
    assert_eq!(mapper.read_chr_rom(0x1800), 0x80 | 10);
    mapper.write_chr_rom(0x1800, 0x5A);
    assert_eq!(mapper.rom.chr_rom[10 * 1024], 0x5A);
    assert!(!mapper.can_access_chr_rom(0x2000));
    mapper.write(0x8000, 0x80);
    mapper.write(0x8001, 64);
    assert!(!mapper.can_access_chr_rom(0x1000));
}

#[test]
fn mapper4_scanline_counter() {
    let mut mapper = Mapper4::new();
    mapper.write(0xC000, 2);
    mapper.write(0xC001, 0);
    mapper.write(0xE001, 0);
    mapper.scanline(0, true);
    assert_eq!(mapper.irq_latch_counter, 2);
    assert!(!mapper.irq_reload);
    mapper.scanline(1, false);
    mapper.scanline(241, true);
    assert_eq!(mapper.irq_latch_counter, 2);
    mapper.scanline(1, true);
    assert_eq!(mapper.irq_latch_counter, 1);
    assert!(!mapper.is_irq);
    mapper.scanline(2, true);
    assert_eq!(mapper.irq_latch_counter, 0);
    assert!(mapper.is_irq);
    assert!(mapper.is_irq());
    assert!(!mapper.is_irq());
    mapper.scanline(3, true);
    assert_eq!(mapper.irq_latch_counter, 2);
    // disabled: the counter runs, no interrupt
    mapper.write(0xE000, 0);
    mapper.scanline(4, true);
    mapper.scanline(5, true);
    assert_eq!(mapper.irq_latch_counter, 0);
    assert!(!mapper.is_irq());
}

#[test]
fn mapper4_program_ram() {
    let mut mapper = Mapper4::new();
    assert_eq!(mapper.read_prg_ram(0x7FFF), 0xFF);
    mapper.write_prg_ram(0x6010, 0x99);
    assert_eq!(mapper.read_prg_ram(0x6010), 0x99);
    mapper.load_prg_ram(&vec![4, 5]);
    assert_eq!(mapper.read_prg_ram(0x6001), 5);
    assert!(!mapper.can_access_prg_ram(0x6002));
}

#[test]
fn new_mappers_hold_an_empty_cartridge() {
    fn nothing(rom: &Rom) {
        assert!(rom.prg_rom.is_empty() && rom.chr_rom.is_empty());
        assert_eq!(rom.mapper, 0);
        assert_eq!(rom.screen_mirroring, Mirroring::VERTICAL);
        assert!(!rom.is_chr_ram);
        assert!(rom.save_data.is_empty());
        assert_eq!(rom.save_data_file, "");
    }
    nothing(&Mapper0::new().rom);
    nothing(&Mapper1::new().rom);
    let second = Mapper2::new();
    nothing(&second.rom);
    assert_eq!(second.bank_select, 0);
    let third = Mapper3::new();
    nothing(&third.rom);
    assert_eq!(third.bank_select, 0);
    nothing(&Mapper4::new().rom);
    assert!(!Mapper0::new().can_read_prg_rom(0x8000));
}
