use nes_emu::rom::{copy_of, Mirroring, Rom};

fn image(prg_pages: u8, chr_pages: u8, flags6: u8, flags7: u8, trainer: bool) -> Vec<u8> {
    let mut raw = vec![0x4E, 0x45, 0x53, 0x1A, prg_pages, chr_pages, flags6, flags7];
    raw.extend_from_slice(&[0; 8]);
    if trainer {
        raw.extend(std::iter::repeat(0xEE).take(512));
    }
    raw.extend((0..prg_pages as usize * 16384).map(|i| (i % 251) as u8));
    raw.extend((0..chr_pages as usize * 8192).map(|i| (i % 239) as u8 ^ 0xFF));
    raw
}

#[test]
fn rom_is_read_from_an_ines_file() {
    let raw = image(2, 1, 0x31, 0x40, false);
    assert!(Rom::can_read(&raw));
    let rom = Rom::new(&raw).unwrap();
    assert_eq!(rom.mapper, 0x43);
    assert_eq!(rom.screen_mirroring, Mirroring::VERTICAL);
    assert_eq!(rom.prg_rom.len(), 32768);
    assert_eq!(rom.chr_rom.len(), 8192);
    assert_eq!(rom.prg_rom[0], 0);
    assert_eq!(rom.prg_rom[300], (300 % 251) as u8);
    assert_eq!(rom.chr_rom[5], 5 ^ 0xFF);
    assert_eq!(&rom.prg_rom[..], &raw[16..16 + 32768]);
    assert_eq!(&rom.chr_rom[..], &raw[16 + 32768..]);
    assert!(!rom.is_chr_ram);
    assert!(rom.save_data.is_empty());
    assert_eq!(rom.save_data_file, "");
}

#[test]
fn rom_skips_the_trainer() {
    let raw = image(1, 1, 0b0100, 0x00, true);
    let rom = Rom::new(&raw).unwrap();
    assert_eq!(rom.mapper, 0);
    assert_eq!(rom.screen_mirroring, Mirroring::HORIZONTAL);
    assert_eq!(&rom.prg_rom[..], &raw[16 + 512..16 + 512 + 16384]);
    assert_eq!(&rom.chr_rom[..], &raw[16 + 512 + 16384..]);
}

#[test]
fn rom_mirroring_bits() {
    assert_eq!(Rom::new(&image(1, 1, 0b0000, 0, false)).unwrap().screen_mirroring, Mirroring::HORIZONTAL);
    assert_eq!(Rom::new(&image(1, 1, 0b0001, 0, false)).unwrap().screen_mirroring, Mirroring::VERTICAL);
    assert_eq!(Rom::new(&image(1, 1, 0b1000, 0, false)).unwrap().screen_mirroring, Mirroring::FOUR_SCREEN);
    assert_eq!(Rom::new(&image(1, 1, 0b1001, 0, false)).unwrap().screen_mirroring, Mirroring::FOUR_SCREEN);
}

#[test]
fn rom_without_chr_gets_a_page_of_ram() {
    let rom = Rom::new(&image(1, 0, 0x10, 0x00, false)).unwrap();
    assert!(rom.is_chr_ram);
    assert_eq!(rom.chr_rom, vec![0u8; 8192]);
    assert_eq!(rom.mapper, 1);
}

#[test]
fn rom_refuses_a_file_without_the_tag() {
    let mut raw = image(1, 1, 0, 0, false);
    raw[3] = 0x1B;
    assert!(Rom::can_read(&raw));
    match Rom::new(&raw) {
        Err(message) => assert_eq!(message, "File is not in iNes file format"),
        Ok(_) => panic!("a file without the tag was read"),
    }
    assert!(Rom::new(&vec![1, 2, 3, 4]).is_err());
}

#[test]
fn rom_can_read_tells_short_files() {
    assert!(!Rom::can_read(&vec![0x4E, 0x45, 0x53]));
    assert!(!Rom::can_read(&vec![0x4E, 0x45, 0x53, 0x1A, 1, 1]));
    let mut raw = image(1, 1, 0, 0, false);
    raw.pop();
    assert!(!Rom::can_read(&raw));
    raw.push(0);
    assert!(Rom::can_read(&raw));
    raw.push(0);
    assert!(Rom::can_read(&raw));
}

#[test]
fn empty_rom() {
    let rom = Rom::empty();
    assert!(rom.prg_rom.is_empty());
    assert!(rom.chr_rom.is_empty());
    assert_eq!(rom.mapper, 0);
    assert_eq!(rom.screen_mirroring, Mirroring::VERTICAL);
    assert!(!rom.is_chr_ram);
}

#[test]
fn copy_of_copies_a_range() {
    let raw = vec![1, 2, 3, 4, 5];
    assert_eq!(copy_of(&raw, 1, 4), vec![2, 3, 4]);
    assert_eq!(copy_of(&raw, 2, 2), Vec::<u8>::new());
    assert_eq!(copy_of(&raw, 0, 5), raw);
}
