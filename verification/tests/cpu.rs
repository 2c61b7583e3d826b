use nes_core::bus::Bus;
use nes_core::cpu::{Mem, StatusFlags, CPU};
use nes_core::rom::test_rom;

#[test]
fn test_0xa9_lda_immediate_load_data() {
    let mut cpu = CPU::new(Bus::new(test_rom()));
    cpu.load_and_run(vec![0xa9, 0x05, 0x00]);
    assert_eq!(cpu.register_a, 0b0000_0101);
    assert!(!cpu.status.contains(StatusFlags::ZERO));
    assert!(!cpu.status.contains(StatusFlags::NEGATIVE));
}

#[test]
fn test_0xa9_lda_zero_flag() {
    let mut cpu = CPU::new(Bus::new(test_rom()));
    cpu.load_and_run(vec![0xa9, 0x00, 0x00]);
    assert_eq!(cpu.register_a, 0x00);
    assert!(cpu.status.contains(StatusFlags::ZERO));
    assert!(!cpu.status.contains(StatusFlags::NEGATIVE));
}

#[test]
fn test_0xa9_lda_negative_flag() {
    let mut cpu = CPU::new(Bus::new(test_rom()));
    cpu.load_and_run(vec![0xa9, 0x09, 0x00]);
    assert_eq!(cpu.register_a, 0x09);
    assert!(!cpu.status.contains(StatusFlags::ZERO));
    assert!(!cpu.status.contains(StatusFlags::NEGATIVE));
}

#[test]
fn test_0xa2_ldx_immediate_load_data() {
    let mut cpu = CPU::new(Bus::new(test_rom()));
    cpu.load_and_run(vec![0xa2, 0x05, 0x00]);
    assert_eq!(cpu.register_x, 0b0000_0101);
    assert!(!cpu.status.contains(StatusFlags::ZERO));
    assert!(!cpu.status.contains(StatusFlags::NEGATIVE));
}

#[test]
fn test_0xa2_ldx_zero_flag() {
    let mut cpu = CPU::new(Bus::new(test_rom()));
    cpu.load_and_run(vec![0xa2, 0x00, 0x00]);
    assert_eq!(cpu.register_x, 0x00);
    assert!(cpu.status.contains(StatusFlags::ZERO));
    assert!(!cpu.status.contains(StatusFlags::NEGATIVE));
}

#[test]
fn test_0xa2_ldx_negative_flag() {
    let mut cpu = CPU::new(Bus::new(test_rom()));
    cpu.load_and_run(vec![0xa2, 0x09, 0x00]);
    assert_eq!(cpu.register_x, 0x09);
    assert!(!cpu.status.contains(StatusFlags::ZERO));
    assert!(!cpu.status.contains(StatusFlags::NEGATIVE));
}

#[test]
fn test_0xaa_tax_move_a_to_x() {
    let mut cpu = CPU::new(Bus::new(test_rom()));
    cpu.load_and_run(vec![0xa9, 10, 0xaa, 0x00]);

    assert_eq!(cpu.register_x, 10);
    assert!(!cpu.status.contains(StatusFlags::ZERO));
    assert!(!cpu.status.contains(StatusFlags::NEGATIVE));
}

#[test]
fn test_5_ops_working_together() {
    let mut cpu = CPU::new(Bus::new(test_rom()));
    cpu.load_and_run(vec![0xa9, 0xc0, 0xaa, 0xe8, 0x00]);

    assert_eq!(cpu.register_x, 0xc1)
}

#[test]
fn test_inx_overflow() {
    let mut cpu = CPU::new(Bus::new(test_rom()));
    cpu.load_and_run(vec![0xa2, 0xff, 0xe8, 0xe8, 0x00]);

    assert_eq!(cpu.register_x, 1)
}

#[test]
fn test_0x85_sta() {
    let mut cpu = CPU::new(Bus::new(test_rom()));
    let reg_a_val = 0x09;
    let destination_addr = 0x28;
    cpu.load_and_run(vec![0xa9, reg_a_val, 0x85, destination_addr]);

    assert_eq!(cpu.register_a, reg_a_val);
    assert_eq!(cpu.mem_read(destination_addr as u16), reg_a_val);
}

#[test]
fn test_0x95_sta() {
    let mut cpu = CPU::new(Bus::new(test_rom()));
    let reg_a_val = 0x09;
    let reg_x_val = 0x02;
    let destination_addr = 0x28;
    cpu.load_and_run(vec![
        0xa2,
        reg_x_val,
        0xa9,
        reg_a_val,
        0x95,
        destination_addr,
    ]);

    assert_eq!(cpu.register_a, reg_a_val);
    assert_eq!(
        cpu.mem_read((destination_addr as u16).wrapping_add(reg_x_val as u16)),
        reg_a_val
    );
}
