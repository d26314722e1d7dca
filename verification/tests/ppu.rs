use nes_emu::ppu::{
    AddrRegister, ControlRegister, MaskRegister, NesPPU, ScrollRegister, StatusRegister,
};
use nes_emu::rom::Mirroring;

fn ppu(mirroring: Mirroring) -> NesPPU {
    NesPPU::new((0..0x2000).map(|i| (i % 256) as u8).collect(), mirroring)
}

fn point(ppu: &mut NesPPU, addr: u16) {
    ppu.addr.reset_latch();
    ppu.write_to_ppu_addr((addr >> 8) as u8);
    ppu.write_to_ppu_addr((addr & 0xFF) as u8);
}

#[test]
fn addr_register_takes_two_writes() {
    let mut register = AddrRegister::new();
    assert_eq!(register.get(), 0);
    register.update(0x23);
    assert_eq!(register.get(), 0x2300);
    assert!(!register.hi_ptr);
    register.update(0x45);
    assert_eq!(register.get(), 0x2345);
    assert!(register.hi_ptr);
    // addresses above $3FFF are mirrored down
    register.update(0x7F);
    assert_eq!(register.get(), 0x3F45);
    register.update(0xFF);
    assert_eq!(register.get(), 0x3FFF);
    register.update(0x12);
    register.reset_latch();
    register.update(0x01);
    assert_eq!(register.get(), 0x01FF);
    register.set(0xABCD);
    assert_eq!(register.value, (0xAB, 0xCD));
}

#[test]
fn addr_register_increments_and_wraps() {
    let mut register = AddrRegister::new();
    register.update(0x20);
    register.update(0xFF);
    register.increment(1);
    assert_eq!(register.get(), 0x2100);
    register.increment(32);
    assert_eq!(register.get(), 0x2120);
    register.update(0x3F);
    register.update(0xF0);
    register.increment(32);
    assert_eq!(register.get(), 0x0010);
    register.update(0x3F);
    register.update(0xFF);
    register.increment(1);
    assert_eq!(register.get(), 0x0000);
}

#[test]
fn control_register_fields() {
    let mut control = ControlRegister::new();
    assert_eq!(control.vram_addr_increment(), 1);
    assert_eq!(control.background_pattern_addr(), 0);
    assert_eq!(control.sprite_pattern_addr(), 0);
    assert_eq!(control.name_table_addr(), 0x2000);
    control.update(0b0001_1101);
    assert_eq!(control.vram_addr_increment(), 32);
    assert_eq!(control.background_pattern_addr(), 0x1000);
    assert_eq!(control.sprite_pattern_addr(), 0x1000);
    assert_eq!(control.name_table_addr(), 0x2400);
    control.update(0b10);
    assert_eq!(control.name_table_addr(), 0x2800);
    control.update(0b11);
    assert_eq!(control.name_table_addr(), 0x2C00);
    assert!(control.contains(ControlRegister::NAMETABLE1));
    assert!(!control.contains(ControlRegister::GENERATE_NMI));
    // the query sets the bit that it asks for
    assert!(!control.generate_vblank_nmi());
    assert_eq!(control.bits, 0b1000_0011);
    assert!(control.generate_vblank_nmi());
}

#[test]
fn status_mask_and_scroll_registers() {
    let mut status = StatusRegister::new();
    assert!(!status.is_in_vblank());
    status.set_vblank_status(true);
    assert!(status.is_in_vblank());
    assert_eq!(status.bits, 0x80);
    status.set_sprite_zero_hit(true);
    assert_eq!(status.bits, 0xC0);
    status.reset_vblank_status();
    assert_eq!(status.bits, 0x40);
    status.set_sprite_zero_hit(false);
    assert_eq!(status.bits, 0);
    status.update(0x1F);
    status.set(0x20, true);
    assert_eq!(status.bits, 0x3F);

    let mut mask = MaskRegister::new();
    assert!(!mask.show_sprites());
    mask.update(0x10);
    assert!(mask.show_sprites());
    mask.update(0xEF);
    assert!(!mask.show_sprites());

    let mut scroll = ScrollRegister::new();
    scroll.set(7);
    assert_eq!((scroll.scroll_x, scroll.scroll_y, scroll.write_x), (0, 7, true));
    scroll.set(9);
    assert_eq!((scroll.scroll_x, scroll.scroll_y, scroll.write_x), (9, 7, false));
    scroll.reset();
    assert!(scroll.write_x);
    scroll.set(1);
    assert_eq!(scroll.scroll_x, 1);
}

#[test]
fn vram_mirroring() {
    let vertical = ppu(Mirroring::VERTICAL);
    assert_eq!(vertical.mirror_vram_addr(0x2000), 0x000);
    assert_eq!(vertical.mirror_vram_addr(0x2400), 0x400);
    assert_eq!(vertical.mirror_vram_addr(0x2801), 0x001);
    assert_eq!(vertical.mirror_vram_addr(0x2FFF), 0x7FF);
    assert_eq!(vertical.mirror_vram_addr(0x3000), 0x000);
    assert_eq!(vertical.mirror_vram_addr(0x3EFF), 0x6FF);
    let horizontal = ppu(Mirroring::HORIZONTAL);
    assert_eq!(horizontal.mirror_vram_addr(0x2000), 0x000);
    assert_eq!(horizontal.mirror_vram_addr(0x2400), 0x000);
    assert_eq!(horizontal.mirror_vram_addr(0x27FF), 0x3FF);
    assert_eq!(horizontal.mirror_vram_addr(0x2800), 0x400);
    assert_eq!(horizontal.mirror_vram_addr(0x2C05), 0x405);
    let four = ppu(Mirroring::FOUR_SCREEN);
    assert_eq!(four.mirror_vram_addr(0x2C05), 0xC05);
}

#[test]
fn data_register_writes_and_buffered_reads() {
    let mut ppu = ppu(Mirroring::VERTICAL);
    point(&mut ppu, 0x2005);
    assert!(ppu.can_write_data());
    ppu.write_to_data(0x66);
    ppu.write_to_data(0x77);
    assert_eq!(ppu.vram[5], 0x66);
    assert_eq!(ppu.vram[6], 0x77);
    assert_eq!(ppu.addr.get(), 0x2007);
    // the mirror of the first name table
    point(&mut ppu, 0x2805);
    assert!(ppu.can_read_data());
    assert_eq!(ppu.read_data(), 0);
    assert_eq!(ppu.read_data(), 0x66);
    assert_eq!(ppu.read_data(), 0x77);
    // character memory
    point(&mut ppu, 0x0123);
    ppu.read_data();
    assert_eq!(ppu.read_data(), 0x23);
    // writes to character memory are dropped
    point(&mut ppu, 0x0123);
    ppu.write_to_data(0xFF);
    assert_eq!(ppu.chr_rom[0x123], 0x23);
    assert_eq!(ppu.addr.get(), 0x0124);
}

#[test]
fn data_register_steps_by_32() {
    let mut ppu = ppu(Mirroring::HORIZONTAL);
    ppu.write_to_ctrl(0b100);
    point(&mut ppu, 0x2000);
    ppu.write_to_data(1);
    ppu.write_to_data(2);
    assert_eq!(ppu.vram[0], 1);
    assert_eq!(ppu.vram[32], 2);
    assert_eq!(ppu.addr.get(), 0x2040);
}

#[test]
fn palette_is_read_at_once() {
    let mut ppu = ppu(Mirroring::VERTICAL);
    point(&mut ppu, 0x3F01);
    ppu.write_to_data(0x2A);
    assert_eq!(ppu.palette_table[1], 0x2A);
    point(&mut ppu, 0x3F01);
    assert_eq!(ppu.read_data(), 0x2A);
    point(&mut ppu, 0x3F1F);
    assert!(ppu.can_read_data() && ppu.can_write_data());
    point(&mut ppu, 0x3F20);
    assert!(!ppu.can_read_data());
    assert!(!ppu.can_write_data());
}

#[test]
fn data_register_tells_where_it_leads_nowhere() {
    let mut four = ppu(Mirroring::FOUR_SCREEN);
    point(&mut four, 0x27FF);
    assert!(four.can_write_data() && four.can_read_data());
    point(&mut four, 0x2800);
    assert!(!four.can_write_data());
    assert!(!four.can_read_data());
    point(&mut four, 0x3000);
    assert!(four.can_write_data());
    assert!(!four.can_read_data());
    four.write_to_data(1);
    assert_eq!(four.addr.get(), 0x3001);
    let mut bare = NesPPU::new(Vec::new(), Mirroring::VERTICAL);
    point(&mut bare, 0x0000);
    assert!(!bare.can_read_data());
    assert!(bare.can_write_data());
}

#[test]
fn control_write_raises_nmi_in_vblank() {
    let mut ppu = ppu(Mirroring::VERTICAL);
    ppu.write_to_status(0x80);
    ppu.write_to_ctrl(0x00);
    assert_eq!(ppu.nmi_interrupt, None);
    // the write found bit 7 clear and left it set
    assert_eq!(ppu.ctrl.bits, 0x80);
    ppu.ctrl.update(0x00);
    ppu.write_to_ctrl(0x81);
    assert_eq!(ppu.nmi_interrupt, Some(1));
    assert_eq!(ppu.ctrl.bits, 0x81);
    ppu.nmi_interrupt = None;
    ppu.write_to_ctrl(0x03);
    assert_eq!(ppu.ctrl.bits, 0x03);
    assert_eq!(ppu.nmi_interrupt, None);
    ppu.write_to_status(0x00);
    ppu.write_to_ctrl(0x80);
    assert_eq!(ppu.nmi_interrupt, None);
}

#[test]
fn status_read_resets_the_scroll_latch() {
    let mut ppu = ppu(Mirroring::VERTICAL);
    ppu.write_to_status(0xE5);
    ppu.write_to_scroll(3);
    assert_eq!(ppu.scroll.scroll_y, 3);
    ppu.write_to_scroll(4);
    assert_eq!(ppu.scroll.scroll_x, 4);
    assert!(!ppu.scroll.write_x);
    assert_eq!(ppu.read_status(), 0xE5);
    assert!(ppu.scroll.write_x);
    ppu.write_to_mask(0x18);
}

#[test]
fn sprite_memory() {
    let mut ppu = ppu(Mirroring::VERTICAL);
    ppu.write_to_oam_addr(0xFE);
    ppu.write_to_oam_data(1);
    ppu.write_to_oam_data(2);
    ppu.write_to_oam_data(3);
    assert_eq!(ppu.oam_data[0xFE], 1);
    assert_eq!(ppu.oam_data[0xFF], 2);
    assert_eq!(ppu.oam_data[0x00], 3);
    assert_eq!(ppu.oam_addr, 1);
    ppu.write_to_oam_addr(0xFF);
    assert_eq!(ppu.read_oam_data(), 2);
    let mut page = [0u8; 256];
    for (i, byte) in page.iter_mut().enumerate() {
        *byte = !(i as u8);
    }
    ppu.write_to_oam_dma(page);
    assert_eq!(ppu.oam_data[0], 0xFF);
    assert_eq!(ppu.oam_data[255], 0x00);
}

fn run_lines(ppu: &mut NesPPU, lines: usize) -> usize {
    let mut frames = 0;
    for _ in 0..lines {
        for _ in 0..31 {
            if ppu.tick(11) {
                frames += 1;
            }
        }
    }
    frames
}

#[test]
fn tick_counts_scanlines_and_frames() {
    let mut ppu = ppu(Mirroring::VERTICAL);
    assert!(!ppu.tick(255));
    assert_eq!((ppu.cycles, ppu.scanline), (255, 0));
    assert!(!ppu.tick(86));
    assert_eq!((ppu.cycles, ppu.scanline), (0, 1));
    assert!(!ppu.tick(255));
    assert!(!ppu.tick(255));
    assert_eq!((ppu.cycles, ppu.scanline), (169, 2));
    ppu.cycles = 0;
    ppu.scanline = 0;
    assert_eq!(run_lines(&mut ppu, 240), 0);
    assert_eq!(ppu.scanline, 240);
    assert_eq!(ppu.status.bits & 0x80, 0);
    run_lines(&mut ppu, 1);
    // vertical blank; the query has set bit 7 of the control register
    assert_eq!(ppu.status.bits & 0x80, 0x80);
    assert_eq!(ppu.nmi_interrupt, None);
    assert_eq!(ppu.ctrl.bits, 0x80);
    ppu.write_to_oam_addr(9);
    assert_eq!(run_lines(&mut ppu, 16), 0);
    assert_eq!(ppu.scanline, 257);
    assert_eq!(ppu.oam_addr, 0);
    assert_eq!(run_lines(&mut ppu, 5), 1);
    assert_eq!(ppu.scanline, 0);
    assert_eq!(ppu.status.bits & 0xC0, 0);
    assert_eq!(ppu.nmi_interrupt, None);
    // the second frame asks for the interrupt
    assert_eq!(run_lines(&mut ppu, 241), 0);
    assert_eq!(ppu.nmi_interrupt, Some(1));
    assert_eq!(run_lines(&mut ppu, 21), 1);
    assert_eq!(ppu.nmi_interrupt, None);
}

#[test]
fn tick_detects_sprite_zero_hit() {
    let mut ppu = ppu(Mirroring::VERTICAL);
    ppu.write_to_mask(0x10);
    ppu.write_to_oam_addr(0);
    ppu.write_to_oam_data(5);
    ppu.write_to_oam_addr(3);
    ppu.write_to_oam_data(100);
    run_lines(&mut ppu, 5);
    assert_eq!(ppu.status.bits & 0x40, 0);
    run_lines(&mut ppu, 1);
    assert_eq!(ppu.status.bits & 0x40, 0x40);
    run_lines(&mut ppu, 235);
    assert_eq!(ppu.scanline, 241);
    assert_eq!(ppu.status.bits & 0x40, 0);

    let mut hidden = self::ppu(Mirroring::VERTICAL);
    hidden.write_to_oam_addr(0);
    hidden.write_to_oam_data(5);
    run_lines(&mut hidden, 10);
    assert_eq!(hidden.status.bits & 0x40, 0);
}
