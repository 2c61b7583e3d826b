use nes_core::bus::{Bus, BusDevice};
use nes_core::cpu::Mem;
use nes_core::mem::MemFault;
use nes_core::rom::{create_rom, test_rom, Rom, TestRom};

fn single_bank_rom() -> Rom {
    let mut prg = vec![0u8; 0x4000];
    prg[0] = 0xAB;
    prg[0x3FFF] = 0xCD;
    let image = create_rom(TestRom {
        header: vec![0x4E, 0x45, 0x53, 0x1A, 0x01, 0x01, 0x00, 0, 0, 0, 0, 0, 0, 0, 0, 0],
        trainer: None,
        pgp_rom: prg,
        chr_rom: vec![0u8; 0x2000],
    });
    Rom::new(&image).unwrap()
}

#[test]
fn ram_is_mirrored_four_times() {
    let mut bus = Bus::new(test_rom());
    assert_eq!(bus.mem_write(0x0000, 0x5A), Ok(()));
    assert_eq!(bus.mem_read(0x0000), 0x5A);
    assert_eq!(bus.mem_read(0x0800), 0x5A);
    assert_eq!(bus.mem_read(0x1000), 0x5A);
    assert_eq!(bus.mem_read(0x1800), 0x5A);
    assert_eq!(bus.mem_write(0x1FFF, 0x77), Ok(()));
    assert_eq!(bus.mem_read(0x07FF), 0x77);
    assert_eq!(bus.mem_read(0x0FFF), 0x77);
    assert_eq!(bus.mem_read(0x07FE), 0x00);
}

#[test]
fn mirror_addr_masks_each_window() {
    assert_eq!(BusDevice::CPU.mirror_addr(0x1FFF), 0x07FF);
    assert_eq!(BusDevice::CPU.mirror_addr(0x0800), 0x0000);
    assert_eq!(BusDevice::PPU.mirror_addr(0x2008), 0x2000);
    assert_eq!(BusDevice::PPU.mirror_addr(0x3FFF), 0x2007);
    assert_eq!(BusDevice::PPU.mirror_addr(0x3456), 0x2006);
}

#[test]
fn ppu_registers_are_mirrored_every_eight_bytes() {
    let mut bus = Bus::new(test_rom());
    assert_eq!(bus.mem_read(0x2000), bus.mem_read(0x2008));
    // OAM address and data through two different mirrors
    bus.mem_write(0x2003, 0x10).unwrap();
    bus.mem_write(0x3FFC, 0x42).unwrap();
    bus.mem_write(0x200B, 0x10).unwrap();
    assert_eq!(bus.mem_read(0x2004), 0x42);
    assert_eq!(bus.mem_read(0x3F04), 0x42);
}

#[test]
fn write_only_registers_read_as_zero() {
    let mut bus = Bus::new(test_rom());
    bus.mem_write(0x2000, 0xFF).unwrap();
    bus.mem_write(0x2001, 0xFF).unwrap();
    for addr in [0x2000u16, 0x2001, 0x2003, 0x2005, 0x2006] {
        assert_eq!(bus.mem_read(addr), 0);
    }
}

#[test]
fn program_rom_is_read_from_0x8000() {
    let mut bus = Bus::new(test_rom());
    assert_eq!(bus.mem_read(0x8000), 1);
    assert_eq!(bus.mem_read(0xFFFF), 1);
    assert_eq!(bus.mem_read_u16(0xFFFC), 0x0101);
}

#[test]
fn a_single_bank_shows_in_both_halves() {
    let mut bus = Bus::new(single_bank_rom());
    assert_eq!(bus.mem_read(0x8000), 0xAB);
    assert_eq!(bus.mem_read(0xC000), 0xAB);
    assert_eq!(bus.mem_read(0xBFFF), 0xCD);
    assert_eq!(bus.mem_read(0xFFFF), 0xCD);
    assert_eq!(bus.mem_read(0x8001), 0x00);
}

#[test]
fn program_rom_rejects_writes() {
    let mut bus = Bus::new(test_rom());
    assert_eq!(bus.mem_write(0x8000, 0x55), Err(MemFault::ProgramRom { addr: 0x8000 }));
    assert_eq!(bus.mem_write(0xFFFF, 0x55), Err(MemFault::ProgramRom { addr: 0xFFFF }));
    assert_eq!(bus.mem_read(0x8000), 1);
    assert_eq!(bus.mem_read(0xFFFF), 1);
}

#[test]
fn unmapped_addresses_read_zero_and_drop_writes() {
    let mut bus = Bus::new(test_rom());
    for addr in [0x4000u16, 0x4014, 0x5000, 0x7FFF] {
        assert_eq!(bus.mem_write(addr, 0x99), Ok(()));
        assert_eq!(bus.mem_read(addr), 0);
    }
}

#[test]
fn words_are_little_endian() {
    let mut bus = Bus::new(test_rom());
    assert_eq!(bus.mem_write_u16(0x0010, 0xBEEF), Ok(()));
    assert_eq!(bus.mem_read(0x0010), 0xEF);
    assert_eq!(bus.mem_read(0x0011), 0xBE);
    assert_eq!(bus.mem_read_u16(0x0010), 0xBEEF);
}

#[test]
fn a_word_at_the_top_of_memory_wraps_to_the_bottom() {
    let mut bus = Bus::new(test_rom());
    bus.mem_write(0x0000, 0x12).unwrap();
    // low byte from ROM at 0xFFFF, high byte from RAM at 0x0000
    assert_eq!(bus.mem_read_u16(0xFFFF), 0x1201);
}

#[test]
fn a_word_write_into_rom_stops_at_the_first_byte() {
    let mut bus = Bus::new(test_rom());
    assert_eq!(
        bus.mem_write_u16(0xFFFF, 0xABCD),
        Err(MemFault::ProgramRom { addr: 0xFFFF })
    );
    assert_eq!(bus.mem_read(0x0000), 0);
    // the low byte lands, the high byte is rejected
    assert_eq!(
        bus.mem_write_u16(0x7FFF, 0xABCD),
        Err(MemFault::ProgramRom { addr: 0x8000 })
    );
}

#[test]
fn peek_returns_what_a_read_would() {
    let mut bus = Bus::new(test_rom());
    bus.mem_write(0x0123, 0x45).unwrap();
    assert_eq!(bus.peek(0x0123), 0x45);
    assert_eq!(bus.peek(0x0923), 0x45);
    assert_eq!(bus.peek(0x9000), 1);
    assert_eq!(bus.peek(0x4000), 0);
    assert_eq!(bus.peek(0x2002), bus.mem_read(0x2002));
}

#[test]
fn the_cartridge_itself_is_a_read_only_device() {
    let mut rom = single_bank_rom();
    assert_eq!(rom.mem_read(0x8000), 0xAB);
    assert_eq!(rom.mem_read(0xFFFF), 0xCD);
    assert_eq!(rom.mem_read(0x0000), 0);
    assert_eq!(rom.mem_write(0x8000, 1), Err(MemFault::ProgramRom { addr: 0x8000 }));
    assert_eq!(rom.mem_read_u16(0xBFFF), 0xABCD);
}
