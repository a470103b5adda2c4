use nes6502::bus::Bus;
use nes6502::error::CpuError;
use nes6502::mem::Mem;
use nes6502::rom::{Mirroring, Rom};

fn bus_with_prg(prg_rom: Vec<u8>) -> Bus {
    Bus::new(Rom { prg_rom, chr_rom: vec![0; 8192], mapper: 0, screen_mirroring: Mirroring::Horizontal })
}

#[test]
fn ram_is_mirrored_every_2k() {
    let mut bus = Bus::new(Rom::blank());
    bus.mem_write(0x0001, 0xAB).unwrap();
    assert_eq!(bus.mem_read(0x0001), Ok(0xAB));
    assert_eq!(bus.mem_read(0x0801), Ok(0xAB));
    assert_eq!(bus.mem_read(0x1001), Ok(0xAB));
    assert_eq!(bus.mem_read(0x1801), Ok(0xAB));
    bus.mem_write(0x1FFF, 0x12).unwrap();
    assert_eq!(bus.mem_read(0x07FF), Ok(0x12));
}

#[test]
fn single_prg_bank_is_mirrored() {
    let mut prg = vec![0u8; 0x4000];
    prg[0] = 0x11;
    prg[0x3FFF] = 0x22;
    let mut bus = bus_with_prg(prg);
    assert_eq!(bus.mem_read(0x8000), Ok(0x11));
    assert_eq!(bus.mem_read(0xC000), Ok(0x11));
    assert_eq!(bus.mem_read(0xC000), bus.mem_read(0x8000));
    assert_eq!(bus.mem_read(0xBFFF), Ok(0x22));
    assert_eq!(bus.mem_read(0xFFFF), Ok(0x22));
}

#[test]
fn double_prg_bank_is_not_mirrored() {
    let mut prg = vec![0u8; 0x8000];
    prg[0] = 0x11;
    prg[0x4000] = 0x33;
    let mut bus = bus_with_prg(prg);
    assert_eq!(bus.mem_read(0x8000), Ok(0x11));
    assert_eq!(bus.mem_read(0xC000), Ok(0x33));
}

#[test]
fn rom_refuses_writes_unless_allowed() {
    let mut bus = Bus::new(Rom::blank());
    assert_eq!(bus.mem_write(0x8000, 1), Err(CpuError::RomWrite(0x8000)));
    assert_eq!(bus.mem_write(0xFFFF, 1), Err(CpuError::RomWrite(0xFFFF)));
    assert_eq!(bus.mem_read(0x8000), Ok(0));
    bus.allow_rom_writes = true;
    assert_eq!(bus.mem_write(0x8000, 7), Ok(()));
    assert_eq!(bus.mem_read(0x8000), Ok(7));
}

#[test]
fn rom_writes_follow_the_mirror_of_a_single_bank() {
    let mut bus = bus_with_prg(vec![0u8; 0x4000]);
    bus.set_allow_rom_writes(true);
    bus.mem_write(0xFFFC, 0x34).unwrap();
    assert_eq!(bus.mem_read(0xBFFC), Ok(0x34));
    assert_eq!(bus.mem_read(0xFFFC), Ok(0x34));
}

#[test]
fn write_only_registers_refuse_reads() {
    let mut bus = Bus::new(Rom::blank());
    for addr in [0x2000u16, 0x2001, 0x2003, 0x2005, 0x2006, 0x4014, 0x2008, 0x3FF9] {
        assert_eq!(bus.mem_read(addr), Err(CpuError::WriteOnlyRead(addr)));
    }
}

#[test]
fn unmapped_regions_read_zero_and_drop_writes() {
    let mut bus = Bus::new(Rom::blank());
    for addr in [0x4000u16, 0x4015, 0x4016, 0x4017, 0x4018, 0x4020, 0x5000, 0x7FFF] {
        assert_eq!(bus.mem_write(addr, 0xFF), Ok(()));
        assert_eq!(bus.mem_read(addr), Ok(0));
    }
}

#[test]
fn words_are_little_endian() {
    let mut bus = Bus::new(Rom::blank());
    bus.mem_write_u16(0x0010, 0xBEEF).unwrap();
    assert_eq!(bus.mem_read(0x0010), Ok(0xEF));
    assert_eq!(bus.mem_read(0x0011), Ok(0xBE));
    assert_eq!(bus.mem_read_u16(0x0010), Ok(0xBEEF));
}

#[test]
fn ppu_status_is_reached_through_every_mirror() {
    let mut bus = Bus::new(Rom::blank());
    assert_eq!(bus.mem_read(0x2002), Ok(0));
    assert_eq!(bus.mem_read(0x200A), Ok(0));
    assert_eq!(bus.mem_read(0x3FFA), Ok(0));
}

#[test]
fn ppu_data_is_written_and_read_back_through_the_bus() {
    let mut bus = Bus::new(Rom::blank());
    bus.mem_read(0x2002).unwrap();
    bus.mem_write(0x2006, 0x23).unwrap();
    bus.mem_write(0x2006, 0x05).unwrap();
    bus.mem_write(0x2007, 0x66).unwrap();
    bus.mem_read(0x2002).unwrap();
    bus.mem_write(0x2006, 0x23).unwrap();
    bus.mem_write(0x2006, 0x05).unwrap();
    assert_eq!(bus.mem_read(0x2007), Ok(0));
    assert_eq!(bus.mem_read(0x2007), Ok(0x66));
}

#[test]
fn ppu_data_in_the_forbidden_window_fails() {
    let mut bus = Bus::new(Rom::blank());
    bus.mem_read(0x2002).unwrap();
    bus.mem_write(0x2006, 0x30).unwrap();
    bus.mem_write(0x2006, 0x10).unwrap();
    assert_eq!(bus.mem_write(0x2007, 1), Err(CpuError::PpuIllegalRegion(0x3010)));
    assert_eq!(bus.mem_read(0x2007), Err(CpuError::PpuIllegalRegion(0x3010)));
}

#[test]
fn oam_data_is_written_and_read_through_the_bus() {
    let mut bus = Bus::new(Rom::blank());
    bus.mem_write(0x2003, 0x10).unwrap();
    bus.mem_write(0x2004, 0x66).unwrap();
    bus.mem_write(0x2004, 0x77).unwrap();
    bus.mem_write(0x2003, 0x10).unwrap();
    assert_eq!(bus.mem_read(0x2004), Ok(0x66));
    bus.mem_write(0x2003, 0x11).unwrap();
    assert_eq!(bus.mem_read(0x2004), Ok(0x77));
}

#[test]
fn oam_dma_copies_a_page_from_the_sprite_address_on() {
    let mut bus = Bus::new(Rom::blank());
    for i in 0..256u16 {
        bus.mem_write(0x0200 + i, i as u8).unwrap();
    }
    bus.mem_write(0x2003, 0x10).unwrap();
    assert_eq!(bus.cycles(), 0);
    bus.mem_write(0x4014, 0x02).unwrap();
    assert_eq!(bus.cycles(), 513);
    // the sprite address is where it was
    assert_eq!(bus.mem_read(0x2004), Ok(0x00));
    bus.mem_write(0x2003, 0x11).unwrap();
    assert_eq!(bus.mem_read(0x2004), Ok(0x01));
    bus.mem_write(0x2003, 0x0F).unwrap();
    assert_eq!(bus.mem_read(0x2004), Ok(0xFF));
    // from an odd cycle the transfer takes one cycle more
    bus.mem_write(0x4014, 0x02).unwrap();
    assert_eq!(bus.cycles(), 513 + 514);
}

#[test]
fn tick_counts_cycles() {
    let mut bus = Bus::new(Rom::blank());
    bus.tick(7);
    bus.tick(200);
    assert_eq!(bus.cycles(), 207);
}

#[test]
fn peek_shows_memory_without_reading_it() {
    let mut bus = Bus::new(Rom::blank());
    bus.mem_write(0x0005, 0x42).unwrap();
    assert_eq!(bus.peek(0x0005), 0x42);
    assert_eq!(bus.peek(0x0805), 0x42);
    assert_eq!(bus.peek(0x2000), 0);
    assert_eq!(bus.peek(0x5000), 0);
    assert_eq!(bus.peek(0x8000), 0);
    // a look at DATA does not move the VRAM address
    bus.mem_read(0x2002).unwrap();
    bus.mem_write(0x2006, 0x20).unwrap();
    bus.mem_write(0x2006, 0x00).unwrap();
    bus.mem_write(0x2007, 0x99).unwrap();
    bus.mem_read(0x2002).unwrap();
    bus.mem_write(0x2006, 0x20).unwrap();
    bus.mem_write(0x2006, 0x00).unwrap();
    assert_eq!(bus.peek(0x2007), 0);
    assert_eq!(bus.peek(0x2007), 0);
    assert_eq!(bus.mem_read(0x2007), Ok(0));
    assert_eq!(bus.peek(0x2007), 0x99);
}

#[test]
fn nmi_is_polled_once() {
    let mut bus = Bus::new(Rom::blank());
    bus.mem_write(0x2000, 0x80).unwrap();
    assert!(!bus.poll_nmi_status());
    // 241 scanlines of 341 dots, three dots to the cycle
    for _ in 0..(241 * 341 / 3 / 100 + 1) {
        bus.tick(100);
    }
    assert!(bus.poll_nmi_status());
    assert!(!bus.poll_nmi_status());
}
