use nes6502::error::CpuError;
use nes6502::ppu::addrreg::AddressRegister;
use nes6502::ppu::ctrlreg::{ControlFlags, ControlRegister};
use nes6502::ppu::maskreg::{MaskFlags, MaskRegister};
use nes6502::ppu::scrollreg::ScrollRegister;
use nes6502::ppu::statusreg::StatusRegister;
use nes6502::ppu::PPU;
use nes6502::rom::Mirroring;

fn new_ppu(mirroring: Mirroring) -> PPU {
    let mut chr = vec![0u8; 8192];
    chr[0x0123] = 0x5A;
    PPU::new(chr, mirroring)
}

fn set_addr(ppu: &mut PPU, addr: u16) {
    ppu.read_status();
    ppu.write_to_ppu_addr((addr >> 8) as u8);
    ppu.write_to_ppu_addr((addr & 0xFF) as u8);
}

#[test]
fn address_register_takes_high_then_low() {
    let mut addr = AddressRegister::new();
    assert_eq!(addr.get_addr(), 0);
    addr.update(0x21, false);
    assert_eq!(addr.get_addr(), 0x2100);
    addr.update(0x34, true);
    assert_eq!(addr.get_addr(), 0x2134);
    assert_eq!(addr.value(), (0x21, 0x34));
}

#[test]
fn address_register_is_cut_to_14_bits() {
    let mut addr = AddressRegister::new();
    addr.update(0xFF, false);
    addr.update(0xFF, true);
    assert_eq!(addr.get_addr(), 0x3FFF);
    addr.increment(1);
    assert_eq!(addr.get_addr(), 0x0000);
    addr.update(0x7F, false);
    assert_eq!(addr.get_addr(), 0x3F00);
}

#[test]
fn address_register_increment_carries() {
    let mut addr = AddressRegister::new();
    addr.update(0x20, false);
    addr.update(0xF0, true);
    addr.increment(32);
    assert_eq!(addr.get_addr(), 0x2110);
    addr.increment(1);
    assert_eq!(addr.get_addr(), 0x2111);
}

#[test]
fn scroll_register_takes_x_then_y() {
    let mut scroll = ScrollRegister::new();
    assert_eq!(scroll.get_pos(), (0, 0));
    scroll.update(0x12, false);
    assert_eq!(scroll.get_pos(), (0x12, 0));
    scroll.update(0x34, true);
    assert_eq!(scroll.get_pos(), (0x12, 0x34));
}

#[test]
fn control_register_gives_the_vram_step() {
    let mut ctrl = ControlRegister::new();
    assert_eq!(ctrl.vram_addr_inc(), 1);
    ctrl.flags = ControlFlags::from_bits_truncate(ControlFlags::VRAM_ADDR_INC);
    assert_eq!(ctrl.vram_addr_inc(), 32);
    assert_eq!(ctrl.flags.bits(), 0b100);
    assert!(ctrl.flags.contains(ControlFlags::VRAM_ADDR_INC));
    assert!(!ctrl.flags.contains(ControlFlags::GENERATE_NMI));
}

#[test]
fn mask_register_stores_the_byte() {
    let mut mask = MaskRegister::new();
    assert_eq!(mask.flags.bits(), 0);
    mask.write(0b0001_1000);
    assert!(mask.flags.contains(MaskFlags::SH_BACKGROUND));
    assert!(mask.flags.contains(MaskFlags::SH_SPRITES));
    assert!(!mask.flags.contains(MaskFlags::GREYSCALE));
    mask.enable();
    assert_eq!(mask.flags.bits(), 0b0001_1000);
}

#[test]
fn status_register_sets_and_clears_vblank() {
    let mut status = StatusRegister::new();
    assert_eq!(status.bits(), 0);
    status.set_vblank_status(true);
    assert_eq!(status.bits(), 0x80);
    assert!(status.contains(StatusRegister::VBLANK_FLAG));
    status.set(StatusRegister::SPRITE_ZERO_HIT, true);
    status.reset_vblank_status();
    assert_eq!(status.bits(), 0x40);
    status.set_vblank_status(false);
    assert_eq!(status.bits(), 0x40);
}

#[test]
fn ppu_starts_cleared() {
    let mut ppu = new_ppu(Mirroring::Horizontal);
    assert_eq!(ppu.oam_addr, 0);
    assert_eq!(ppu.addr.get_addr(), 0);
    assert_eq!(ppu.scroll.get_pos(), (0, 0));
    assert!(ppu.vram.iter().all(|b| *b == 0));
    assert!(ppu.oam_data.iter().all(|b| *b == 0));
    assert!(ppu.palette_table.iter().all(|b| *b == 0));
    assert_eq!(ppu.read_status(), 0);
    assert!(!ppu.take_nmi());
}

#[test]
fn ppu_data_reads_are_buffered() {
    let mut ppu = new_ppu(Mirroring::Horizontal);
    ppu.write_to_ppu_ctrl(0);
    ppu.vram[0x0305] = 0x66;
    ppu.vram[0x0306] = 0x77;
    set_addr(&mut ppu, 0x2305);
    assert_eq!(ppu.read_data(), Ok(0));
    assert_eq!(ppu.addr.get_addr(), 0x2306);
    assert_eq!(ppu.read_data(), Ok(0x66));
    assert_eq!(ppu.read_data(), Ok(0x77));
}

#[test]
fn ppu_data_reads_the_pattern_table() {
    let mut ppu = new_ppu(Mirroring::Horizontal);
    set_addr(&mut ppu, 0x0123);
    assert_eq!(ppu.read_data(), Ok(0));
    assert_eq!(ppu.read_data(), Ok(0x5A));
}

#[test]
fn ppu_data_steps_by_32_when_asked() {
    let mut ppu = new_ppu(Mirroring::Horizontal);
    ppu.write_to_ppu_ctrl(0b100);
    ppu.vram[0x01FF] = 0x66;
    ppu.vram[0x01FF + 32] = 0x77;
    ppu.vram[0x01FF + 64] = 0x88;
    set_addr(&mut ppu, 0x21FF);
    assert_eq!(ppu.read_data(), Ok(0));
    assert_eq!(ppu.read_data(), Ok(0x66));
    assert_eq!(ppu.read_data(), Ok(0x77));
    assert_eq!(ppu.read_data(), Ok(0x88));
}

#[test]
fn ppu_writes_to_the_pattern_table_are_dropped() {
    let mut ppu = new_ppu(Mirroring::Horizontal);
    set_addr(&mut ppu, 0x0123);
    assert_eq!(ppu.write_data(0xFF), Ok(()));
    assert_eq!(ppu.addr.get_addr(), 0x0124);
    assert_eq!(ppu.chr_rom[0x0123], 0x5A);
}

#[test]
fn ppu_horizontal_mirroring() {
    // [0x2000 A] [0x2400 a]
    // [0x2800 B] [0x2C00 b]
    let mut ppu = new_ppu(Mirroring::Horizontal);
    set_addr(&mut ppu, 0x2405);
    ppu.write_data(0x66).unwrap();
    set_addr(&mut ppu, 0x2805);
    ppu.write_data(0x77).unwrap();
    set_addr(&mut ppu, 0x2005);
    ppu.read_data().unwrap();
    assert_eq!(ppu.read_data(), Ok(0x66));
    set_addr(&mut ppu, 0x2C05);
    ppu.read_data().unwrap();
    assert_eq!(ppu.read_data(), Ok(0x77));
    assert_eq!(ppu.vram[0x0005], 0x66);
    assert_eq!(ppu.vram[0x0405], 0x77);
}

#[test]
fn ppu_vertical_mirroring() {
    // [0x2000 A] [0x2400 B]
    // [0x2800 a] [0x2C00 b]
    let mut ppu = new_ppu(Mirroring::Vertical);
    set_addr(&mut ppu, 0x2005);
    ppu.write_data(0x66).unwrap();
    set_addr(&mut ppu, 0x2C05);
    ppu.write_data(0x77).unwrap();
    set_addr(&mut ppu, 0x2805);
    ppu.read_data().unwrap();
    assert_eq!(ppu.read_data(), Ok(0x66));
    set_addr(&mut ppu, 0x2405);
    ppu.read_data().unwrap();
    assert_eq!(ppu.read_data(), Ok(0x77));
}

#[test]
fn ppu_four_screens_reach_past_vram() {
    let mut ppu = new_ppu(Mirroring::FourScreen);
    set_addr(&mut ppu, 0x2005);
    ppu.write_data(0x66).unwrap();
    set_addr(&mut ppu, 0x2805);
    ppu.write_data(0x77).unwrap();
    assert_eq!(ppu.vram[0x0005], 0x66);
    set_addr(&mut ppu, 0x2805);
    ppu.read_data().unwrap();
    assert_eq!(ppu.read_data(), Ok(0));
}

#[test]
fn ppu_palette_is_read_at_once_and_mirrored() {
    let mut ppu = new_ppu(Mirroring::Horizontal);
    ppu.vram[0x0701] = 0x99;
    set_addr(&mut ppu, 0x3F01);
    ppu.write_data(0x2A).unwrap();
    set_addr(&mut ppu, 0x3F10);
    ppu.write_data(0x0F).unwrap();
    assert_eq!(ppu.palette_table[0x01], 0x2A);
    assert_eq!(ppu.palette_table[0x00], 0x0F);
    assert_eq!(ppu.palette_table[0x10], 0x00);
    set_addr(&mut ppu, 0x3F01);
    assert_eq!(ppu.read_data(), Ok(0x2A));
    set_addr(&mut ppu, 0x3F21);
    assert_eq!(ppu.read_data(), Ok(0x2A));
    set_addr(&mut ppu, 0x3F00);
    assert_eq!(ppu.read_data(), Ok(0x0F));
    // the buffer was filled from the nametable under the palette
    set_addr(&mut ppu, 0x3F01);
    ppu.read_data().unwrap();
    set_addr(&mut ppu, 0x2000);
    assert_eq!(ppu.read_data(), Ok(0x99));
}

#[test]
fn ppu_forbidden_window_is_refused() {
    let mut ppu = new_ppu(Mirroring::Horizontal);
    set_addr(&mut ppu, 0x3000);
    assert_eq!(ppu.write_data(1), Err(CpuError::PpuIllegalRegion(0x3000)));
    assert_eq!(ppu.addr.get_addr(), 0x3000);
    assert_eq!(ppu.read_data(), Err(CpuError::PpuIllegalRegion(0x3000)));
    assert_eq!(ppu.addr.get_addr(), 0x3001);
    set_addr(&mut ppu, 0x3EFF);
    assert_eq!(ppu.read_data(), Err(CpuError::PpuIllegalRegion(0x3EFF)));
}

#[test]
fn ppu_status_read_clears_vblank_and_the_toggle() {
    let mut ppu = new_ppu(Mirroring::Horizontal);
    ppu.status.set_vblank_status(true);
    ppu.status.set(StatusRegister::SPRITE_ZERO_HIT, true);
    assert_eq!(ppu.read_status(), 0xC0);
    assert_eq!(ppu.read_status(), 0x40);
    // after a read the next write to ADDR is a first write
    ppu.write_to_ppu_addr(0x21);
    ppu.read_status();
    ppu.write_to_ppu_addr(0x23);
    ppu.write_to_ppu_addr(0x05);
    assert_eq!(ppu.addr.get_addr(), 0x2305);
}

#[test]
fn ppu_scroll_and_addr_share_the_toggle() {
    let mut ppu = new_ppu(Mirroring::Horizontal);
    ppu.read_status();
    ppu.write_to_ppu_scroll(0x11);
    ppu.write_to_ppu_addr(0x22);
    assert_eq!(ppu.scroll.get_pos(), (0x11, 0));
    assert_eq!(ppu.addr.get_addr(), 0x0022);
    ppu.write_to_ppu_addr(0x21);
    ppu.write_to_ppu_scroll(0x33);
    assert_eq!(ppu.addr.get_addr(), 0x2122);
    assert_eq!(ppu.scroll.get_pos(), (0x11, 0x33));
}

#[test]
fn ppu_oam_write_moves_the_sprite_address() {
    let mut ppu = new_ppu(Mirroring::Horizontal);
    ppu.write_to_oam_addr(0xFF);
    ppu.write_oam_data(0x66);
    assert_eq!(ppu.oam_addr, 0x00);
    ppu.write_oam_data(0x77);
    assert_eq!(ppu.oam_addr, 0x01);
    assert_eq!(ppu.oam_data[0xFF], 0x66);
    assert_eq!(ppu.oam_data[0x00], 0x77);
    ppu.write_to_oam_addr(0xFF);
    assert_eq!(ppu.read_oam_data(), 0x66);
    assert_eq!(ppu.oam_addr, 0xFF);
}

#[test]
fn ppu_oam_dma_wraps() {
    let mut ppu = new_ppu(Mirroring::Horizontal);
    let mut page = [0u8; 256];
    for i in 0..256 {
        page[i] = i as u8;
    }
    ppu.write_to_oam_addr(0x10);
    ppu.write_oam_dma(&page);
    assert_eq!(ppu.oam_addr, 0x10);
    assert_eq!(ppu.oam_data[0x10], 0x00);
    assert_eq!(ppu.oam_data[0xFF], 0xEF);
    assert_eq!(ppu.oam_data[0x00], 0xF0);
    assert_eq!(ppu.oam_data[0x0F], 0xFF);
}

#[test]
fn ppu_tick_counts_dots_and_scanlines() {
    let mut ppu = new_ppu(Mirroring::Horizontal);
    assert!(!ppu.tick(200));
    assert!(!ppu.tick(140));
    // 340 dots: still on scanline 0; one more starts scanline 1
    ppu.status.set_vblank_status(true);
    assert!(!ppu.tick(1));
    let mut frames = 0;
    // 261 scanlines more complete the frame
    for _ in 0..261 {
        if ppu.tick(255) {
            frames += 1;
        }
        if ppu.tick(86) {
            frames += 1;
        }
    }
    assert_eq!(frames, 1);
    assert_eq!(ppu.read_status() & 0x80, 0);
}

#[test]
fn ppu_vblank_starts_on_scanline_241() {
    let mut ppu = new_ppu(Mirroring::Horizontal);
    for _ in 0..240 {
        ppu.tick(255);
        ppu.tick(86);
    }
    assert_eq!(ppu.status.bits() & 0x80, 0);
    assert!(!ppu.tick(255));
    assert_eq!(ppu.status.bits() & 0x80, 0);
    assert!(!ppu.tick(86));
    assert_eq!(ppu.status.bits() & 0x80, 0x80);
    // NMI generation is off
    assert!(!ppu.take_nmi());
}

#[test]
fn ppu_raises_nmi_at_vblank_when_asked() {
    let mut ppu = new_ppu(Mirroring::Horizontal);
    ppu.write_to_ppu_ctrl(0x80);
    for _ in 0..241 {
        assert!(!ppu.take_nmi());
        ppu.tick(255);
        ppu.tick(86);
    }
    assert!(ppu.take_nmi());
    assert!(!ppu.take_nmi());
}

#[test]
fn ppu_raises_nmi_when_switched_on_during_vblank() {
    let mut ppu = new_ppu(Mirroring::Horizontal);
    ppu.write_to_ppu_ctrl(0x80);
    assert!(!ppu.take_nmi());
    ppu.write_to_ppu_ctrl(0x00);
    ppu.status.set_vblank_status(true);
    ppu.write_to_ppu_ctrl(0x00);
    assert!(!ppu.take_nmi());
    ppu.write_to_ppu_ctrl(0x80);
    assert!(ppu.take_nmi());
    // no rising edge
    ppu.write_to_ppu_ctrl(0x80);
    assert!(!ppu.take_nmi());
}

#[test]
fn ppu_frame_end_clears_vblank_and_sprite_zero_hit() {
    let mut ppu = new_ppu(Mirroring::Horizontal);
    let mut done = false;
    for line in 0..262 {
        if line == 250 {
            ppu.status.set(StatusRegister::SPRITE_ZERO_HIT, true);
            ppu.status.set(StatusRegister::SPRITE_OVERFLOW, true);
            assert_eq!(ppu.status.bits(), 0xE0);
        }
        ppu.tick(255);
        done = ppu.tick(86);
    }
    assert!(done);
    assert_eq!(ppu.status.bits(), 0x20);
}

#[test]
fn ppu_peek_register_moves_nothing() {
    let mut ppu = new_ppu(Mirroring::Horizontal);
    ppu.status.set_vblank_status(true);
    assert_eq!(ppu.peek_register(2), 0x80);
    assert_eq!(ppu.peek_register(0x0A), 0x80);
    assert_eq!(ppu.status.bits(), 0x80);
    ppu.write_to_oam_addr(3);
    ppu.write_oam_data(9);
    ppu.write_to_oam_addr(3);
    assert_eq!(ppu.peek_register(4), 9);
    assert_eq!(ppu.peek_register(0), 0);
    assert_eq!(ppu.peek_register(7), 0);
}
