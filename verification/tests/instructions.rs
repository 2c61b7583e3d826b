use nes_core::bus::Bus;
use nes_core::cpu::model::Stop;
use nes_core::cpu::{AddressingMode, Mem, StatusFlags, CPU};
use nes_core::mem::MemFault;
use nes_core::rom::test_rom;

const C: u8 = StatusFlags::CARRY;
const Z: u8 = StatusFlags::ZERO;
const V: u8 = StatusFlags::OVERFLOW;
const N: u8 = StatusFlags::NEGATIVE;

fn cpu() -> CPU {
    CPU::new(Bus::new(test_rom()))
}

fn run(program: Vec<u8>) -> CPU {
    let mut cpu = cpu();
    assert_eq!(cpu.load_and_run(program), Stop::Halted);
    cpu
}

fn run_with(cells: &[(u16, u8)], program: Vec<u8>) -> CPU {
    let mut cpu = cpu();
    for (addr, data) in cells {
        cpu.mem_write(*addr, *data).unwrap();
    }
    assert_eq!(cpu.load_and_run(program), Stop::Halted);
    cpu
}

fn flags(cpu: &CPU) -> (bool, bool, bool, bool) {
    (
        cpu.status.contains(C),
        cpu.status.contains(Z),
        cpu.status.contains(V),
        cpu.status.contains(N),
    )
}

#[test]
fn lda_tax_inx_brk() {
    let cpu = run(vec![0xA9, 0x05, 0xAA, 0xE8, 0x00]);
    assert_eq!(cpu.register_a, 5);
    assert_eq!(cpu.register_x, 6);
    assert!(!cpu.status.contains(StatusFlags::ZERO));
    assert!(!cpu.status.contains(StatusFlags::NEGATIVE));
}

#[test]
fn ora_indirect_y_reads_through_the_zero_page_pointer() {
    let mut cpu = cpu();
    cpu.mem_write(0x33, 0x00).unwrap();
    cpu.mem_write(0x34, 0x04).unwrap();
    cpu.mem_write(0x0400, 0xAA).unwrap();
    cpu.register_y = 0;
    // ORA ($33),Y
    cpu.mem_write(0x0064, 0x11).unwrap();
    cpu.mem_write(0x0065, 0x33).unwrap();
    assert_eq!(cpu.get_absolute_address(&AddressingMode::Indirect_Y, 0x0065), 0x0400);
    cpu.program_counter = 0x0064;
    assert_eq!(cpu.step(), None);
    assert_eq!(cpu.register_a, 0xAA);
    assert_eq!(cpu.program_counter, 0x0066);
    assert!(cpu.status.contains(N));
}

#[test]
fn a_load_sets_zero_and_negative_and_no_other_flag() {
    for value in [0x00u8, 0x01, 0x7F, 0x80, 0xFF] {
        // SEC, SED, then LDA #value
        let cpu = run(vec![0x38, 0xF8, 0xA9, value, 0x00]);
        assert_eq!(cpu.register_a, value);
        assert_eq!(cpu.status.contains(Z), value == 0);
        assert_eq!(cpu.status.contains(N), value & 0x80 != 0);
        assert_eq!(cpu.status.bits() & !(Z | N), 0b0010_1101);
        // CLC, CLD, CLI, then LDA #value
        let cpu = run(vec![0x18, 0xD8, 0x58, 0xA9, value, 0x00]);
        assert_eq!(cpu.status.bits(), 0b0010_0000 | if value == 0 { Z } else { 0 } | (value & 0x80));
    }
}

#[test]
fn transfers_and_logic_set_zero_and_negative() {
    // LDX #$80, TXA
    let cpu = run(vec![0xA2, 0x80, 0x8A, 0x00]);
    assert_eq!((cpu.register_a, flags(&cpu)), (0x80, (false, false, false, true)));
    // LDY #$00, LDA #$01, TYA
    let cpu = run(vec![0xA0, 0x00, 0xA9, 0x01, 0x98, 0x00]);
    assert_eq!((cpu.register_a, flags(&cpu)), (0x00, (false, true, false, false)));
    // LDA #$F0, AND #$0F
    let cpu = run(vec![0xA9, 0xF0, 0x29, 0x0F, 0x00]);
    assert_eq!((cpu.register_a, flags(&cpu)), (0x00, (false, true, false, false)));
    // LDA #$F0, EOR #$7F
    let cpu = run(vec![0xA9, 0xF0, 0x49, 0x7F, 0x00]);
    assert_eq!((cpu.register_a, flags(&cpu)), (0x8F, (false, false, false, true)));
    // LDA #$01, ORA #$02
    let cpu = run(vec![0xA9, 0x01, 0x09, 0x02, 0x00]);
    assert_eq!((cpu.register_a, flags(&cpu)), (0x03, (false, false, false, false)));
    // LDA #$80, PHA, LDA #$01, PLA
    let cpu = run(vec![0xA9, 0x80, 0x48, 0xA9, 0x01, 0x68, 0x00]);
    assert_eq!((cpu.register_a, flags(&cpu)), (0x80, (false, false, false, true)));
    // LDA #$80, TAX, TAY, LDX #$12, STX $10, TSX
    let cpu = run(vec![0xA9, 0x80, 0xA8, 0xAA, 0xBA, 0x00]);
    assert_eq!((cpu.register_y, cpu.register_x), (0x80, 0xFD));
}

#[test]
fn adc_adds_with_carry() {
    // LDA #$50, ADC #$50
    let cpu = run(vec![0xA9, 0x50, 0x69, 0x50, 0x00]);
    assert_eq!((cpu.register_a, flags(&cpu)), (0xA0, (false, false, true, true)));
    // LDA #$FF, ADC #$01
    let cpu = run(vec![0xA9, 0xFF, 0x69, 0x01, 0x00]);
    assert_eq!((cpu.register_a, flags(&cpu)), (0x00, (true, true, false, false)));
    // SEC, LDA #$10, ADC #$20
    let cpu = run(vec![0x38, 0xA9, 0x10, 0x69, 0x20, 0x00]);
    assert_eq!((cpu.register_a, flags(&cpu)), (0x31, (false, false, false, false)));
    // LDA #$80, ADC #$80
    let cpu = run(vec![0xA9, 0x80, 0x69, 0x80, 0x00]);
    assert_eq!((cpu.register_a, flags(&cpu)), (0x00, (true, true, true, false)));
    // SEC, LDA #$FF, ADC #$FF
    let cpu = run(vec![0x38, 0xA9, 0xFF, 0x69, 0xFF, 0x00]);
    assert_eq!((cpu.register_a, flags(&cpu)), (0xFF, (true, false, false, true)));
}

#[test]
fn sbc_subtracts_with_borrow() {
    // SEC, LDA #$50, SBC #$F0
    let cpu = run(vec![0x38, 0xA9, 0x50, 0xE9, 0xF0, 0x00]);
    assert_eq!((cpu.register_a, flags(&cpu)), (0x60, (false, false, false, false)));
    // SEC, LDA #$50, SBC #$B0
    let cpu = run(vec![0x38, 0xA9, 0x50, 0xE9, 0xB0, 0x00]);
    assert_eq!((cpu.register_a, flags(&cpu)), (0xA0, (false, false, true, true)));
    // SEC, LDA #$05, SBC #$05
    let cpu = run(vec![0x38, 0xA9, 0x05, 0xE9, 0x05, 0x00]);
    assert_eq!((cpu.register_a, flags(&cpu)), (0x00, (true, true, false, false)));
    // CLC, LDA #$05, SBC #$02: the borrow takes one more
    let cpu = run(vec![0x18, 0xA9, 0x05, 0xE9, 0x02, 0x00]);
    assert_eq!((cpu.register_a, flags(&cpu)), (0x02, (true, false, false, false)));
    // the undocumented twin
    let cpu = run(vec![0x38, 0xA9, 0x05, 0xEB, 0x02, 0x00]);
    assert_eq!((cpu.register_a, flags(&cpu)), (0x03, (true, false, false, false)));
}

#[test]
fn sbc_undoes_adc_when_it_starts_from_the_complementary_carry() {
    for (a, b) in [(0x13u8, 0x9Cu8), (0x00, 0x00), (0xFF, 0xFF), (0x80, 0x7F), (0x13, 0xF0)] {
        // CLC, LDA #a, ADC #b, SEC, SBC #b
        let cpu = run(vec![0x18, 0xA9, a, 0x69, b, 0x38, 0xE9, b, 0x00]);
        assert_eq!(cpu.register_a, a);
        // SEC, LDA #a, ADC #b, CLC, SBC #b
        let cpu = run(vec![0x38, 0xA9, a, 0x69, b, 0x18, 0xE9, b, 0x00]);
        assert_eq!(cpu.register_a, a);
    }
    // with the carry that the addition left: only where it differs from the
    // one before. CLC, LDA #$13, ADC #$F0 leaves carry set
    let cpu = run(vec![0x18, 0xA9, 0x13, 0x69, 0xF0, 0xE9, 0xF0, 0x00]);
    assert_eq!(cpu.register_a, 0x13);
    // CLC, LDA #$00, ADC #$00 leaves carry clear
    let cpu = run(vec![0x18, 0xA9, 0x00, 0x69, 0x00, 0xE9, 0x00, 0x00]);
    assert_eq!(cpu.register_a, 0xFF);
}

#[test]
fn compare_sets_carry_zero_and_negative() {
    // LDA #$10, CMP #$10
    let cpu = run(vec![0xA9, 0x10, 0xC9, 0x10, 0x00]);
    assert_eq!(flags(&cpu), (true, true, false, false));
    // LDA #$10, CMP #$20
    let cpu = run(vec![0xA9, 0x10, 0xC9, 0x20, 0x00]);
    assert_eq!(flags(&cpu), (false, false, false, true));
    // LDX #$30, CPX #$20
    let cpu = run(vec![0xA2, 0x30, 0xE0, 0x20, 0x00]);
    assert_eq!(flags(&cpu), (true, false, false, false));
    // SEC, LDY #$00, CPY #$01
    let cpu = run(vec![0x38, 0xA0, 0x00, 0xC0, 0x01, 0x00]);
    assert_eq!(flags(&cpu), (false, false, false, true));
    assert_eq!(cpu.register_y, 0);
}

#[test]
fn shifts_and_rotates_of_the_accumulator() {
    // LDA #$81, ASL
    let cpu = run(vec![0xA9, 0x81, 0x0A, 0x00]);
    assert_eq!((cpu.register_a, flags(&cpu)), (0x02, (true, false, false, false)));
    // LDA #$01, LSR
    let cpu = run(vec![0xA9, 0x01, 0x4A, 0x00]);
    assert_eq!((cpu.register_a, flags(&cpu)), (0x00, (true, true, false, false)));
    // SEC, LDA #$80, ROL
    let cpu = run(vec![0x38, 0xA9, 0x80, 0x2A, 0x00]);
    assert_eq!((cpu.register_a, flags(&cpu)), (0x01, (true, false, false, false)));
    // SEC, LDA #$01, ROR
    let cpu = run(vec![0x38, 0xA9, 0x01, 0x6A, 0x00]);
    assert_eq!((cpu.register_a, flags(&cpu)), (0x80, (true, false, false, true)));
    // CLC, LDA #$40, ROL
    let cpu = run(vec![0x18, 0xA9, 0x40, 0x2A, 0x00]);
    assert_eq!((cpu.register_a, flags(&cpu)), (0x80, (false, false, false, true)));
    // CLC, LDA #$02, ROR
    let cpu = run(vec![0x18, 0xA9, 0x02, 0x6A, 0x00]);
    assert_eq!((cpu.register_a, flags(&cpu)), (0x01, (false, false, false, false)));
}

#[test]
fn shifts_and_rotates_of_memory() {
    // ASL $10
    let mut cpu = run_with(&[(0x10, 0xC1)], vec![0x06, 0x10, 0x00]);
    assert_eq!((cpu.mem_read(0x10), flags(&cpu)), (0x82, (true, false, false, true)));
    // LSR $10
    let mut cpu = run_with(&[(0x10, 0x03)], vec![0x46, 0x10, 0x00]);
    assert_eq!((cpu.mem_read(0x10), flags(&cpu)), (0x01, (true, false, false, false)));
    // SEC, ROL $10
    let mut cpu = run_with(&[(0x10, 0x00)], vec![0x38, 0x26, 0x10, 0x00]);
    assert_eq!((cpu.mem_read(0x10), flags(&cpu)), (0x01, (false, false, false, false)));
    // SEC, ROR $10
    let mut cpu = run_with(&[(0x10, 0x00)], vec![0x38, 0x66, 0x10, 0x00]);
    assert_eq!((cpu.mem_read(0x10), flags(&cpu)), (0x80, (false, false, false, true)));
    assert_eq!(cpu.register_a, 0);
}

#[test]
fn increments_and_decrements_wrap() {
    // INC $10
    let mut cpu = run_with(&[(0x10, 0xFF)], vec![0xE6, 0x10, 0x00]);
    assert_eq!((cpu.mem_read(0x10), flags(&cpu)), (0x00, (false, true, false, false)));
    // DEC $10
    let mut cpu = run_with(&[(0x10, 0x00)], vec![0xC6, 0x10, 0x00]);
    assert_eq!((cpu.mem_read(0x10), flags(&cpu)), (0xFF, (false, false, false, true)));
    // LDX #$00, DEX, LDY #$FF, INY
    let cpu = run(vec![0xA2, 0x00, 0xCA, 0xA0, 0xFF, 0xC8, 0x00]);
    assert_eq!((cpu.register_x, cpu.register_y), (0xFF, 0x00));
    assert_eq!(flags(&cpu), (false, true, false, false));
    // LDY #$01, DEY
    let cpu = run(vec![0xA0, 0x01, 0x88, 0x00]);
    assert_eq!((cpu.register_y, flags(&cpu)), (0x00, (false, true, false, false)));
}

#[test]
fn bit_tests_the_accumulator_against_memory() {
    // LDA #$01, BIT $10
    let cpu = run_with(&[(0x10, 0xC0)], vec![0xA9, 0x01, 0x24, 0x10, 0x00]);
    assert_eq!((cpu.register_a, flags(&cpu)), (0x01, (false, true, true, true)));
    let cpu = run_with(&[(0x10, 0x01)], vec![0xA9, 0x01, 0x24, 0x10, 0x00]);
    assert_eq!(flags(&cpu), (false, false, false, false));
    // BIT $0310 (absolute)
    let cpu = run_with(&[(0x0310, 0x40)], vec![0xA9, 0xFF, 0x2C, 0x10, 0x03, 0x00]);
    assert_eq!(flags(&cpu), (false, false, true, false));
}

#[test]
fn flag_instructions_set_and_clear_one_flag() {
    let cpu = run(vec![0x38, 0xF8, 0x78, 0x00]);
    assert_eq!(cpu.status.bits(), 0b0010_1101);
    let cpu = run(vec![0x38, 0xF8, 0x18, 0xD8, 0x58, 0x00]);
    assert_eq!(cpu.status.bits(), 0b0010_0000);
    // LDA #$50, ADC #$50 sets overflow; CLV clears it
    let cpu = run(vec![0xA9, 0x50, 0x69, 0x50, 0xB8, 0x00]);
    assert_eq!(flags(&cpu), (false, false, false, true));
}

#[test]
fn stores_write_the_registers() {
    // LDA #$11, LDX #$22, LDY #$33, STA $10, STX $11, STY $12
    let mut cpu =
        run(vec![0xA9, 0x11, 0xA2, 0x22, 0xA0, 0x33, 0x85, 0x10, 0x86, 0x11, 0x84, 0x12, 0x00]);
    assert_eq!(cpu.mem_read(0x10), 0x11);
    assert_eq!(cpu.mem_read(0x11), 0x22);
    assert_eq!(cpu.mem_read(0x12), 0x33);
    // LDA #$09, LDX #$02, STA $0300,X; LDY #$03, STA $0300,Y
    let mut cpu = run(vec![0xA9, 0x09, 0xA2, 0x02, 0x9D, 0x00, 0x03, 0xA0, 0x03, 0x99, 0x00, 0x03]);
    assert_eq!(cpu.mem_read(0x0302), 0x09);
    assert_eq!(cpu.mem_read(0x0303), 0x09);
    // STX $10,Y and STY $10,X
    let mut cpu = run(vec![0xA2, 0x01, 0xA0, 0x02, 0x96, 0x10, 0x94, 0x10, 0x00]);
    assert_eq!(cpu.mem_read(0x12), 0x01);
    assert_eq!(cpu.mem_read(0x11), 0x02);
}

#[test]
fn branches_go_forward_and_backward() {
    // LDX #$03; loop: DEX; BNE loop
    let cpu = run(vec![0xA2, 0x03, 0xCA, 0xD0, 0xFD, 0x00]);
    assert_eq!(cpu.register_x, 0);
    assert_eq!(cpu.program_counter, 0x0606);
    // LDA #$00; BEQ +2; LDA #$55 (skipped); LDX #$01
    let cpu = run(vec![0xA9, 0x00, 0xF0, 0x02, 0xA9, 0x55, 0xA2, 0x01, 0x00]);
    assert_eq!((cpu.register_a, cpu.register_x), (0x00, 0x01));
    // a branch not taken goes on behind its operand
    let cpu = run(vec![0xA9, 0x01, 0xF0, 0x02, 0xA9, 0x55, 0x00]);
    assert_eq!(cpu.register_a, 0x55);
}

#[test]
fn each_branch_follows_its_flag() {
    // the branch skips LDX #$01 when taken
    let skipped = |prefix: &[u8], branch: u8| {
        let mut program = prefix.to_vec();
        program.extend_from_slice(&[branch, 0x02, 0xA2, 0x01, 0x00]);
        run(program).register_x == 0
    };
    assert!(skipped(&[0x18], 0x90)); // CLC, BCC
    assert!(!skipped(&[0x38], 0x90));
    assert!(skipped(&[0x38], 0xB0)); // SEC, BCS
    assert!(!skipped(&[0x18], 0xB0));
    assert!(skipped(&[0xA9, 0x00], 0xF0)); // BEQ
    assert!(!skipped(&[0xA9, 0x01], 0xF0));
    assert!(skipped(&[0xA9, 0x01], 0xD0)); // BNE
    assert!(!skipped(&[0xA9, 0x00], 0xD0));
    assert!(skipped(&[0xA9, 0x80], 0x30)); // BMI
    assert!(!skipped(&[0xA9, 0x01], 0x30));
    assert!(skipped(&[0xA9, 0x01], 0x10)); // BPL
    assert!(!skipped(&[0xA9, 0x80], 0x10));
    assert!(skipped(&[0xA9, 0x50, 0x69, 0x50], 0x70)); // BVS
    assert!(!skipped(&[0xA9, 0x01], 0x70));
    assert!(skipped(&[0xA9, 0x01], 0x50)); // BVC
    assert!(!skipped(&[0xA9, 0x50, 0x69, 0x50], 0x50));
}

#[test]
fn a_branch_to_its_own_operand_is_a_branch() {
    let mut cpu = cpu();
    // BNE -1 at 0x0200: the target is 0x0201, the operand byte itself
    cpu.mem_write(0x0200, 0xD0).unwrap();
    cpu.mem_write(0x0201, 0xFF).unwrap();
    cpu.program_counter = 0x0200;
    assert_eq!(cpu.step(), None);
    assert_eq!(cpu.program_counter, 0x0201);
}

#[test]
fn a_branch_wraps_around_the_address_space() {
    let mut cpu = cpu();
    // BNE -128 at 0x0010: 0x0012 - 128 wraps below zero
    cpu.mem_write(0x0010, 0xD0).unwrap();
    cpu.mem_write(0x0011, 0x80).unwrap();
    cpu.program_counter = 0x0010;
    assert_eq!(cpu.step(), None);
    assert_eq!(cpu.program_counter, 0xFF92);
}

#[test]
fn jmp_absolute_and_indirect() {
    let mut cpu = cpu();
    cpu.load(vec![0x4C, 0x34, 0x12]);
    cpu.program_counter = 0x0600;
    assert_eq!(cpu.step(), None);
    assert_eq!(cpu.program_counter, 0x1234);

    cpu.mem_write(0x0310, 0x78).unwrap();
    cpu.mem_write(0x0311, 0x56).unwrap();
    cpu.load(vec![0x6C, 0x10, 0x03]);
    cpu.program_counter = 0x0600;
    assert_eq!(cpu.step(), None);
    assert_eq!(cpu.program_counter, 0x5678);
}

#[test]
fn jmp_indirect_does_not_cross_the_page() {
    let mut cpu = cpu();
    cpu.mem_write(0x02FF, 0x34).unwrap();
    cpu.mem_write(0x0200, 0x12).unwrap();
    cpu.mem_write(0x0300, 0x56).unwrap();
    cpu.load(vec![0x6C, 0xFF, 0x02]);
    cpu.program_counter = 0x0600;
    assert_eq!(cpu.step(), None);
    assert_eq!(cpu.program_counter, 0x1234);
    assert_eq!(cpu.get_absolute_address(&AddressingMode::Indirect, 0x0601), 0x1234);
}

#[test]
fn a_jump_to_the_byte_behind_the_opcode_is_a_jump() {
    let mut cpu = cpu();
    // JMP $0201 at 0x0200
    cpu.mem_write(0x0200, 0x4C).unwrap();
    cpu.mem_write(0x0201, 0x01).unwrap();
    cpu.mem_write(0x0202, 0x02).unwrap();
    cpu.program_counter = 0x0200;
    assert_eq!(cpu.step(), None);
    assert_eq!(cpu.program_counter, 0x0201);
}

#[test]
fn jsr_and_rts_come_back_behind_the_call() {
    let mut cpu = cpu();
    // 0600: JSR $0606; 0603: LDA #$01; 0605: BRK; 0606: INX; 0607: RTS
    cpu.load(vec![0x20, 0x06, 0x06, 0xA9, 0x01, 0x00, 0xE8, 0x60]);
    cpu.program_counter = 0x0600;
    assert_eq!(cpu.step(), None);
    assert_eq!(cpu.program_counter, 0x0606);
    assert_eq!(cpu.stack_ptr, 0xFB);
    assert_eq!(cpu.mem_read(0x01FD), 0x06);
    assert_eq!(cpu.mem_read(0x01FC), 0x02);
    assert_eq!(cpu.step(), None);
    assert_eq!(cpu.step(), None);
    assert_eq!(cpu.program_counter, 0x0603);
    assert_eq!(cpu.stack_ptr, 0xFD);
    assert_eq!(cpu.run_for(10, |_| {}), Stop::Halted);
    assert_eq!((cpu.register_a, cpu.register_x), (1, 1));
}

#[test]
fn jsr_to_rts_returns_three_bytes_on() {
    for (at, sp) in [(0x0200u16, 0xFDu8), (0x0300, 0x00), (0x0400, 0x01)] {
        let mut cpu = cpu();
        // JSR $0500 at `at`, RTS at 0x0500
        cpu.mem_write(at, 0x20).unwrap();
        cpu.mem_write(at + 1, 0x00).unwrap();
        cpu.mem_write(at + 2, 0x05).unwrap();
        cpu.mem_write(0x0500, 0x60).unwrap();
        cpu.program_counter = at;
        cpu.stack_ptr = sp;
        assert_eq!(cpu.step(), None);
        assert_eq!(cpu.program_counter, 0x0500);
        assert_eq!(cpu.step(), None);
        assert_eq!(cpu.program_counter, at + 3);
        assert_eq!(cpu.stack_ptr, sp);
    }
}

#[test]
fn the_stack_is_last_in_first_out_through_the_wrap() {
    let mut cpu = cpu();
    assert_eq!(cpu.stack_ptr, 0xFD);
    for value in 0..=255u8 {
        cpu.push(value);
    }
    assert_eq!(cpu.stack_ptr, 0xFD);
    // the third push went to 0x01FB, the 254th to 0x0100, the 255th to 0x01FF
    assert_eq!(cpu.mem_read(0x01FD), 0);
    assert_eq!(cpu.mem_read(0x0100), 253);
    assert_eq!(cpu.mem_read(0x01FF), 254);
    assert_eq!(cpu.mem_read(0x01FE), 255);
    for value in (0..=255u8).rev() {
        assert_eq!(cpu.pop(), value);
    }
    assert_eq!(cpu.stack_ptr, 0xFD);
}

#[test]
fn words_go_on_the_stack_high_byte_first() {
    let mut cpu = cpu();
    cpu.push_u16(0xBEEF);
    assert_eq!(cpu.stack_ptr, 0xFB);
    assert_eq!(cpu.mem_read(0x01FD), 0xBE);
    assert_eq!(cpu.mem_read(0x01FC), 0xEF);
    assert_eq!(cpu.pop_u16(), 0xBEEF);
    assert_eq!(cpu.stack_ptr, 0xFD);
    cpu.stack_ptr = 0x00;
    cpu.push_u16(0x1234);
    assert_eq!(cpu.stack_ptr, 0xFE);
    assert_eq!(cpu.mem_read(0x0100), 0x12);
    assert_eq!(cpu.mem_read(0x01FF), 0x34);
    assert_eq!(cpu.pop_u16(), 0x1234);
}

#[test]
fn php_pushes_the_status_with_break_set() {
    // PHP, PLA
    let mut cpu = run(vec![0x08, 0x68, 0x00]);
    assert_eq!(cpu.register_a, 0x34);
    assert_eq!(cpu.mem_read(0x01FD), 0x34);
    // the live status is untouched, apart from what PLA did to N and Z
    assert_eq!(cpu.status.bits(), 0x24);
}

#[test]
fn plp_restores_the_status_without_break() {
    // LDA #$FF, PHA, PLP
    let cpu = run(vec![0xA9, 0xFF, 0x48, 0x28, 0x00]);
    assert_eq!(cpu.status.bits(), 0xEF);
    // LDA #$00, PHA, PLP
    let cpu = run(vec![0xA9, 0x00, 0x48, 0x28, 0x00]);
    assert_eq!(cpu.status.bits(), 0x20);
}

#[test]
fn rti_restores_status_and_program_counter() {
    // LDA #$06, PHA, LDA #$10, PHA, LDA #$D3, PHA, RTI
    let cpu = run(vec![0xA9, 0x06, 0x48, 0xA9, 0x10, 0x48, 0xA9, 0xD3, 0x48, 0x40]);
    assert_eq!(cpu.status.bits(), 0xE3);
    assert_eq!(cpu.program_counter, 0x0611);
    assert_eq!(cpu.stack_ptr, 0xFD);
}

#[test]
fn txs_sets_the_stack_pointer_without_flags() {
    // LDA #$01, LDX #$00, TXS ... the zero flag of LDX stays
    let cpu = run(vec![0xA2, 0x80, 0xA9, 0x00, 0x9A, 0x00]);
    assert_eq!(cpu.stack_ptr, 0x80);
    assert_eq!(flags(&cpu), (false, true, false, false));
}

#[test]
fn operand_addresses_of_every_mode() {
    let mut cpu = cpu();
    for (addr, data) in [
        (0x0200u16, 0xFEu8),
        (0x0201, 0x03),
        (0x00FE, 0x11),
        (0x00FF, 0x34),
        (0x0000, 0x12),
        (0x03FE, 0xFF),
        (0x0300, 0x07),
        (0x03FF, 0x55),
    ] {
        cpu.mem_write(addr, data).unwrap();
    }
    cpu.register_x = 0x01;
    cpu.register_y = 0x03;
    let at = 0x0200;
    assert_eq!(cpu.get_absolute_address(&AddressingMode::Immediate, at), 0x0200);
    assert_eq!(cpu.get_absolute_address(&AddressingMode::ZeroPage, at), 0x00FE);
    assert_eq!(cpu.get_absolute_address(&AddressingMode::ZeroPage_X, at), 0x00FF);
    assert_eq!(cpu.get_absolute_address(&AddressingMode::ZeroPage_Y, at), 0x0001);
    assert_eq!(cpu.get_absolute_address(&AddressingMode::Absolute, at), 0x03FE);
    assert_eq!(cpu.get_absolute_address(&AddressingMode::Absolute_X, at), 0x03FF);
    assert_eq!(cpu.get_absolute_address(&AddressingMode::Absolute_Y, at), 0x0401);
    // the pointer at 0x03FE: low byte there, high byte at 0x03FF
    assert_eq!(cpu.get_absolute_address(&AddressingMode::Indirect, at), 0x55FF);
    // the pointer at 0xFE + X = 0xFF: low byte there, high byte at 0x00
    assert_eq!(cpu.get_absolute_address(&AddressingMode::Indirect_X, at), 0x1234);
    // the pointer at 0xFE: 0x3411, plus Y
    assert_eq!(cpu.get_absolute_address(&AddressingMode::Indirect_Y, at), 0x3414);
    cpu.program_counter = at;
    assert_eq!(cpu.get_operand_address(&AddressingMode::Absolute_X), 0x03FF);
    for mode in [
        AddressingMode::Immediate,
        AddressingMode::ZeroPage,
        AddressingMode::ZeroPage_X,
        AddressingMode::ZeroPage_Y,
        AddressingMode::Absolute,
        AddressingMode::Absolute_X,
        AddressingMode::Absolute_Y,
        AddressingMode::Indirect,
        AddressingMode::Indirect_X,
        AddressingMode::Indirect_Y,
    ] {
        assert_eq!(cpu.peek_absolute_address(&mode, at), cpu.get_absolute_address(&mode, at));
    }
}

#[test]
fn absolute_indexing_wraps_at_sixteen_bits() {
    let mut cpu = cpu();
    cpu.mem_write(0x0200, 0xFF).unwrap();
    cpu.mem_write(0x0201, 0xFF).unwrap();
    cpu.register_y = 0x02;
    assert_eq!(cpu.get_absolute_address(&AddressingMode::Absolute_Y, 0x0200), 0x0001);
}

#[test]
fn undocumented_loads_and_stores() {
    // LAX $10
    let cpu = run_with(&[(0x10, 0x8F)], vec![0xA7, 0x10, 0x00]);
    assert_eq!((cpu.register_a, cpu.register_x), (0x8F, 0x8F));
    assert_eq!(flags(&cpu), (false, false, false, true));
    // LDA #$F0, LDX #$3C, SAX $20
    let mut cpu = run(vec![0xA9, 0xF0, 0xA2, 0x3C, 0x87, 0x20, 0x00]);
    assert_eq!(cpu.mem_read(0x20), 0x30);
    assert_eq!(flags(&cpu), (false, false, false, false));
    // LXA #$81
    let cpu = run(vec![0xAB, 0x81, 0x00]);
    assert_eq!((cpu.register_a, cpu.register_x), (0x81, 0x81));
    // LDX #$F3, XAA #$3F
    let cpu = run(vec![0xA2, 0xF3, 0x8B, 0x3F, 0x00]);
    assert_eq!((cpu.register_a, cpu.register_x), (0x33, 0xF3));
    // LAS $0300,Y with 0x0F there: and-ed with the stack pointer 0xFD
    let cpu = run_with(&[(0x0300, 0x0F)], vec![0xBB, 0x00, 0x03, 0x00]);
    assert_eq!((cpu.register_a, cpu.register_x, cpu.stack_ptr), (0x0D, 0x0D, 0x0D));
}

#[test]
fn undocumented_read_modify_write_combinations() {
    // LDA #$04, DCP $10
    let mut cpu = run_with(&[(0x10, 0x05)], vec![0xA9, 0x04, 0xC7, 0x10, 0x00]);
    assert_eq!((cpu.mem_read(0x10), cpu.register_a), (0x04, 0x04));
    assert_eq!(flags(&cpu), (true, true, false, false));
    // SEC, LDA #$01, DCP $10: the comparison borrows, so carry is cleared
    let mut cpu = run_with(&[(0x10, 0x05)], vec![0x38, 0xA9, 0x01, 0xC7, 0x10, 0x00]);
    assert_eq!(cpu.mem_read(0x10), 0x04);
    assert_eq!(flags(&cpu), (false, false, false, true));
    // SEC, LDA #$05, ISB $10
    let mut cpu = run_with(&[(0x10, 0x01)], vec![0x38, 0xA9, 0x05, 0xE7, 0x10, 0x00]);
    assert_eq!((cpu.mem_read(0x10), cpu.register_a), (0x02, 0x03));
    assert_eq!(flags(&cpu), (true, false, false, false));
    // LDA #$01, SLO $10
    let mut cpu = run_with(&[(0x10, 0x81)], vec![0xA9, 0x01, 0x07, 0x10, 0x00]);
    assert_eq!((cpu.mem_read(0x10), cpu.register_a), (0x02, 0x03));
    assert_eq!(flags(&cpu), (true, false, false, false));
    // SEC, LDA #$FF, RLA $10
    let mut cpu = run_with(&[(0x10, 0x40)], vec![0x38, 0xA9, 0xFF, 0x27, 0x10, 0x00]);
    assert_eq!((cpu.mem_read(0x10), cpu.register_a), (0x81, 0x81));
    assert_eq!(flags(&cpu), (false, false, false, true));
    // LDA #$FF, SRE $10
    let mut cpu = run_with(&[(0x10, 0x03)], vec![0xA9, 0xFF, 0x47, 0x10, 0x00]);
    assert_eq!((cpu.mem_read(0x10), cpu.register_a), (0x01, 0xFE));
    assert_eq!(flags(&cpu), (true, false, false, true));
    // CLC, LDA #$10, RRA $10
    let mut cpu = run_with(&[(0x10, 0x03)], vec![0x18, 0xA9, 0x10, 0x67, 0x10, 0x00]);
    assert_eq!((cpu.mem_read(0x10), cpu.register_a), (0x01, 0x12));
    assert_eq!(flags(&cpu), (false, false, false, false));
}

#[test]
fn undocumented_immediate_combinations() {
    // LDA #$FF, ANC #$80
    let cpu = run(vec![0xA9, 0xFF, 0x0B, 0x80, 0x00]);
    assert_eq!((cpu.register_a, flags(&cpu)), (0x80, (true, false, false, true)));
    // SEC, LDA #$FF, ANC #$01
    let cpu = run(vec![0x38, 0xA9, 0xFF, 0x2B, 0x01, 0x00]);
    assert_eq!((cpu.register_a, flags(&cpu)), (0x01, (false, false, false, false)));
    // LDA #$FF, ALR #$03
    let cpu = run(vec![0xA9, 0xFF, 0x4B, 0x03, 0x00]);
    assert_eq!((cpu.register_a, flags(&cpu)), (0x01, (true, false, false, false)));
    // SEC, LDA #$FF, ARR #$C0
    let cpu = run(vec![0x38, 0xA9, 0xFF, 0x6B, 0xC0, 0x00]);
    assert_eq!((cpu.register_a, flags(&cpu)), (0xE0, (true, false, false, true)));
    // CLC, LDA #$FF, ARR #$40
    let cpu = run(vec![0x18, 0xA9, 0xFF, 0x6B, 0x40, 0x00]);
    assert_eq!((cpu.register_a, flags(&cpu)), (0x20, (false, false, true, false)));
    // LDA #$FF, LDX #$0F, AXS #$05
    let cpu = run(vec![0xA9, 0xFF, 0xA2, 0x0F, 0xCB, 0x05, 0x00]);
    assert_eq!((cpu.register_x, flags(&cpu)), (0x0A, (true, false, false, false)));
    // SEC, LDA #$FF, LDX #$01, AXS #$02: carry is left as it was
    let cpu = run(vec![0x38, 0xA9, 0xFF, 0xA2, 0x01, 0xCB, 0x02, 0x00]);
    assert_eq!((cpu.register_x, flags(&cpu)), (0xFF, (true, false, false, true)));
}

#[test]
fn undocumented_stores_of_masked_registers() {
    // LDA #$FF, LDX #$FF, LDY #$01, AHX $0300,Y: stored A & X & high byte
    let mut cpu = run(vec![0xA9, 0xFF, 0xA2, 0xFF, 0xA0, 0x01, 0x9F, 0x00, 0x03, 0x00]);
    assert_eq!(cpu.mem_read(0x0301), 0x03);
    // AHX ($10),Y with the pointer 0x0300 at 0x10
    let mut cpu = run_with(
        &[(0x10, 0x00), (0x11, 0x03)],
        vec![0xA9, 0xFF, 0xA2, 0xFF, 0xA0, 0x01, 0x93, 0x10, 0x00],
    );
    assert_eq!(cpu.mem_read(0x0301), 0x03);
    // LDX #$FF, LDY #$01, SHX $0300,Y: stored X & (high byte + 1)
    let mut cpu = run(vec![0xA2, 0xFF, 0xA0, 0x01, 0x9E, 0x00, 0x03, 0x00]);
    assert_eq!(cpu.mem_read(0x0301), 0x04);
    // LDY #$FF, LDX #$01, SHY $0300,X
    let mut cpu = run(vec![0xA0, 0xFF, 0xA2, 0x01, 0x9C, 0x00, 0x03, 0x00]);
    assert_eq!(cpu.mem_read(0x0301), 0x04);
    // LDA #$F7, LDX #$7F, LDY #$01, TAS $0300,Y
    let mut cpu = run(vec![0xA9, 0xF7, 0xA2, 0x7F, 0xA0, 0x01, 0x9B, 0x00, 0x03, 0x00]);
    assert_eq!(cpu.stack_ptr, 0x77);
    assert_eq!(cpu.mem_read(0x0301), 0x04);
}

#[test]
fn no_operations_of_every_length_change_no_register() {
    // NOP; *NOP; *NOP #$FF; *NOP $10; *NOP $0300,X; LDA #$01
    let cpu = run(vec![0xEA, 0x1A, 0x80, 0xFF, 0x04, 0x10, 0x1C, 0x00, 0x03, 0x02, 0xA9, 0x01, 0x00]);
    assert_eq!(cpu.register_a, 0x01);
    assert_eq!(cpu.program_counter, 0x060D);
    assert_eq!(cpu.status.bits(), 0x24);
    assert_eq!(cpu.stack_ptr, 0xFD);
}

#[test]
fn a_write_into_rom_is_rejected_and_noted() {
    // LDA #$55, STA $8000, STA $9000, LDX #$01
    let mut cpu = run(vec![0xA9, 0x55, 0x8D, 0x00, 0x80, 0x8D, 0x00, 0x90, 0xA2, 0x01, 0x00]);
    assert_eq!(cpu.register_x, 0x01);
    assert_eq!(cpu.mem_read(0x8000), 1);
    assert_eq!(cpu.fault, Some(MemFault::ProgramRom { addr: 0x8000 }));
    assert_eq!(cpu.take_fault(), Some(MemFault::ProgramRom { addr: 0x8000 }));
    assert_eq!(cpu.fault, None);
    assert_eq!(cpu.take_fault(), None);
    assert_eq!(cpu.mem_write(0x8000, 1), Err(MemFault::ProgramRom { addr: 0x8000 }));
    assert_eq!(cpu.fault, None);
}

#[test]
fn a_write_into_character_rom_is_rejected_and_noted() {
    // LDA #$00, STA $2006, STA $2006, STA $2007
    let cpu = run(vec![0xA9, 0x00, 0x8D, 0x06, 0x20, 0x8D, 0x06, 0x20, 0x8D, 0x07, 0x20, 0x00]);
    assert_eq!(cpu.fault, Some(MemFault::CharacterRom { addr: 0x0000 }));
}

#[test]
fn a_write_to_the_ppu_status_is_rejected_and_noted() {
    let cpu = run(vec![0xA9, 0x00, 0x8D, 0x02, 0x20, 0x00]);
    assert_eq!(cpu.fault, Some(MemFault::StatusRegister));
    let cpu = run(vec![0xA9, 0x00, 0x85, 0x10, 0x00]);
    assert_eq!(cpu.fault, None);
}

#[test]
fn a_new_cpu_has_the_reset_registers() {
    let cpu = cpu();
    assert_eq!((cpu.register_a, cpu.register_x, cpu.register_y), (0, 0, 0));
    assert_eq!(cpu.status.bits(), 0b0010_0100);
    assert_eq!(cpu.stack_ptr, 0xFD);
    assert_eq!(cpu.program_counter, 0);
    assert_eq!(cpu.fault, None);
}

#[test]
fn reset_takes_the_program_counter_from_the_vector() {
    let mut cpu = cpu();
    cpu.register_a = 1;
    cpu.register_x = 2;
    cpu.register_y = 3;
    cpu.stack_ptr = 4;
    cpu.status = StatusFlags::from_bits_truncate(0xFF);
    cpu.reset();
    assert_eq!((cpu.register_a, cpu.register_x, cpu.register_y), (0, 0, 0));
    assert_eq!(cpu.status.bits(), 0b0010_0100);
    assert_eq!(cpu.stack_ptr, 0xFD);
    assert_eq!(cpu.program_counter, 0x0101);
}

#[test]
fn load_writes_the_program_at_0x0600() {
    let mut cpu = cpu();
    cpu.load(vec![0x11, 0x22, 0x33]);
    assert_eq!(cpu.mem_read(0x05FF), 0x00);
    assert_eq!(cpu.mem_read(0x0600), 0x11);
    assert_eq!(cpu.mem_read(0x0601), 0x22);
    assert_eq!(cpu.mem_read(0x0602), 0x33);
    assert_eq!(cpu.mem_read(0x0603), 0x00);
    cpu.load(vec![]);
    assert_eq!(cpu.mem_read(0x0600), 0x11);
}

#[test]
fn brk_stops_the_cpu_behind_the_opcode() {
    let mut cpu = cpu();
    cpu.program_counter = 0x0300;
    assert_eq!(cpu.step(), Some(Stop::Halted));
    assert_eq!(cpu.program_counter, 0x0301);
    assert_eq!(cpu.stack_ptr, 0xFD);
    let mut cpu = CPU::new(Bus::new(test_rom()));
    assert_eq!(cpu.load_and_run(vec![]), Stop::Halted);
    assert_eq!(cpu.program_counter, 0x0601);
}

#[test]
fn the_budget_bounds_the_run() {
    let mut cpu = cpu();
    cpu.load(vec![0x4C, 0x00, 0x06]);
    cpu.program_counter = 0x0600;
    let mut seen = 0u32;
    assert_eq!(cpu.run_for(10, |_| seen += 1), Stop::OutOfBudget);
    assert_eq!(seen, 10);
    assert_eq!(cpu.program_counter, 0x0600);
    let mut seen = 0u32;
    assert_eq!(cpu.run_for(0, |_| seen += 1), Stop::OutOfBudget);
    assert_eq!(seen, 0);
    // INX, INX, BRK with a budget of two stops before BRK is fetched
    cpu.load(vec![0xE8, 0xE8, 0x00]);
    cpu.program_counter = 0x0600;
    assert_eq!(cpu.run_for(2, |_| {}), Stop::OutOfBudget);
    assert_eq!((cpu.register_x, cpu.program_counter), (2, 0x0602));
    assert_eq!(cpu.run_for(1, |_| {}), Stop::Halted);
}

#[test]
fn the_observer_sees_the_cpu_before_each_instruction() {
    let mut cpu = cpu();
    cpu.load(vec![0xE8, 0xE8, 0x00]);
    cpu.program_counter = 0x0600;
    let mut seen: Vec<(u16, u8)> = vec![];
    assert_eq!(cpu.run_with_callback(|cpu| seen.push((cpu.program_counter, cpu.register_x))), Stop::Halted);
    assert_eq!(seen, vec![(0x0600, 0), (0x0601, 1), (0x0602, 2)]);
}

#[test]
fn each_instruction_advances_the_ppu_by_three_times_its_cycles() {
    let mut cpu = cpu();
    // LDA #$01 (2 cycles), STA $0300 (4), NOP (2), INC $10 (5)
    cpu.load(vec![0xA9, 0x01, 0x8D, 0x00, 0x03, 0xEA, 0xE6, 0x10]);
    cpu.program_counter = 0x0600;
    cpu.step();
    assert_eq!(cpu.bus.ppu().cycles(), 6);
    cpu.step();
    assert_eq!(cpu.bus.ppu().cycles(), 18);
    cpu.step();
    assert_eq!(cpu.bus.ppu().cycles(), 24);
    cpu.step();
    assert_eq!(cpu.bus.ppu().cycles(), 39);
    // BRK stops before the PPU moves
    assert_eq!(cpu.step(), Some(Stop::Halted));
    assert_eq!(cpu.bus.ppu().cycles(), 39);
    assert_eq!(cpu.bus.ppu().scan_line(), 0);
}

#[test]
fn the_vblank_interrupt_is_served_between_two_instructions() {
    let mut cpu = cpu();
    // LDA #$80, STA $2000, loop: JMP loop
    cpu.load(vec![0xA9, 0x80, 0x8D, 0x00, 0x20, 0x4C, 0x05, 0x06]);
    cpu.reset();
    cpu.program_counter = 0x0600;
    // the handler at the vector's 0x0101 is a BRK in work RAM
    assert_eq!(cpu.run_for(20000, |_| {}), Stop::Halted);
    assert_eq!(cpu.program_counter, 0x0102);
    assert_eq!(cpu.stack_ptr, 0xFA);
    assert_eq!(cpu.mem_read(0x01FD), 0x06);
    assert_eq!(cpu.mem_read(0x01FC), 0x05);
    assert_eq!(cpu.mem_read(0x01FB), 0xA4);
    assert_eq!(cpu.bus.ppu().scan_line(), 241);
    assert_eq!(cpu.bus.poll_nmi_status(), None);
}

#[test]
fn without_interrupt_generation_the_loop_runs_on() {
    let mut cpu = cpu();
    cpu.load(vec![0x4C, 0x00, 0x06]);
    cpu.program_counter = 0x0600;
    assert_eq!(cpu.run_for(20000, |_| {}), Stop::OutOfBudget);
    assert_eq!(cpu.program_counter, 0x0600);
    assert_eq!(cpu.stack_ptr, 0xFD);
}

#[test]
fn status_flags_are_a_set_of_bits() {
    let mut flags = StatusFlags::from_bits_truncate(0);
    assert_eq!(flags.bits(), 0);
    flags.insert(C | N);
    assert_eq!(flags.bits(), 0x81);
    assert!(flags.contains(C));
    assert!(flags.contains(C | N));
    assert!(!flags.contains(C | Z));
    assert!(flags.contains(0));
    flags.remove(C | Z);
    assert_eq!(flags.bits(), 0x80);
    flags.set(V, true);
    assert_eq!(flags.bits(), 0xC0);
    flags.set(N, false);
    assert_eq!(flags.bits(), 0x40);
    assert_eq!(StatusFlags::from_bits(0xFF).unwrap().bits(), 0xFF);
    assert_eq!(StatusFlags::from_bits_truncate(0x5A).bits(), 0x5A);
    assert_eq!(
        [
            StatusFlags::CARRY,
            StatusFlags::ZERO,
            StatusFlags::INTERRUPT_DISABLE,
            StatusFlags::DECIMAL,
            StatusFlags::BREAK,
            StatusFlags::BREAK2,
            StatusFlags::OVERFLOW,
            StatusFlags::NEGATIVE
        ],
        [0x01, 0x02, 0x04, 0x08, 0x10, 0x20, 0x40, 0x80]
    );
}

#[test]
fn words_through_the_cpu_are_little_endian() {
    let mut cpu = cpu();
    assert_eq!(cpu.mem_write_u16(0x0020, 0xCAFE), Ok(()));
    assert_eq!(cpu.mem_read(0x0020), 0xFE);
    assert_eq!(cpu.mem_read(0x0021), 0xCA);
    assert_eq!(cpu.mem_read_u16(0x0020), 0xCAFE);
    assert_eq!(cpu.peek_u16(0x0020), 0xCAFE);
    assert_eq!(cpu.peek(0x0820), 0xFE);
}
