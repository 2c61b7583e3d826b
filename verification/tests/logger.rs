use nes_core::bus::Bus;
use nes_core::cpu::{Mem, CPU};
use nes_core::logger::log;
use nes_core::rom::test_rom;

#[test]
fn test_format_trace() {
    let mut bus = Bus::new(test_rom());
    bus.mem_write(100, 0xa2).unwrap();
    bus.mem_write(101, 0x01).unwrap();
    bus.mem_write(102, 0xca).unwrap();
    bus.mem_write(103, 0x88).unwrap();
    bus.mem_write(104, 0x00).unwrap();

    let mut cpu = CPU::new(bus);
    cpu.program_counter = 0x64;
    cpu.register_a = 1;
    cpu.register_x = 2;
    cpu.register_y = 3;
    let mut result: Vec<String> = vec![];
    cpu.run_with_callback(|cpu| {
        result.push(log(cpu));
    });
    assert_eq!(
        "0064  A2 01     LDX #$01                        A:01 X:02 Y:03 P:24 SP:FD",
        result[0]
    );
    assert_eq!(
        "0066  CA        DEX                             A:01 X:01 Y:03 P:24 SP:FD",
        result[1]
    );
    assert_eq!(
        "0067  88        DEY                             A:01 X:00 Y:03 P:26 SP:FD",
        result[2]
    );
}

#[test]
fn test_format_mem_access() {
    let mut bus = Bus::new(test_rom());
    // ORA ($33), Y
    bus.mem_write(100, 0x11).unwrap();
    bus.mem_write(101, 0x33).unwrap();

    //data
    bus.mem_write(0x33, 00).unwrap();
    bus.mem_write(0x34, 04).unwrap();

    //target cell
    bus.mem_write(0x400, 0xAA).unwrap();

    let mut cpu = CPU::new(bus);
    cpu.program_counter = 0x64;
    cpu.register_y = 0;
    let mut result: Vec<String> = vec![];
    cpu.run_with_callback(|cpu| {
        result.push(log(cpu));
    });
    assert_eq!(
        "0064  11 33     ORA ($33),Y = 0400 @ 0400 = AA  A:00 X:00 Y:00 P:24 SP:FD",
        result[0]
    );
}

fn trace_of(program: &[u8], x: u8, y: u8) -> String {
    let mut bus = Bus::new(test_rom());
    for (i, byte) in program.iter().enumerate() {
        bus.mem_write(0x0200 + i as u16, *byte).unwrap();
    }
    bus.mem_write(0x0010, 0x34).unwrap();
    bus.mem_write(0x0011, 0x12).unwrap();
    bus.mem_write(0x0012, 0x77).unwrap();
    bus.mem_write(0x1234, 0x5A).unwrap();
    bus.mem_write(0x1236, 0x6B).unwrap();
    let mut cpu = CPU::new(bus);
    cpu.program_counter = 0x0200;
    cpu.register_x = x;
    cpu.register_y = y;
    log(&cpu)
}

fn line(text: &str) -> String {
    format!("{:47} A:00 X:00 Y:00 P:24 SP:FD", text)
}

#[test]
fn trace_shows_the_accumulator_as_operand_of_its_shifts() {
    assert_eq!(trace_of(&[0x0a], 0, 0), line("0200  0A        ASL A"));
    assert_eq!(trace_of(&[0x4a], 0, 0), line("0200  4A        LSR A"));
    assert_eq!(trace_of(&[0x2a], 0, 0), line("0200  2A        ROL A"));
    assert_eq!(trace_of(&[0x6a], 0, 0), line("0200  6A        ROR A"));
}

#[test]
fn trace_of_an_instruction_without_operand_ends_with_its_name() {
    assert_eq!(trace_of(&[0xea], 0, 0), line("0200  EA        NOP"));
    assert_eq!(trace_of(&[0x1a], 0, 0), line("0200  1A       *NOP"));
}

#[test]
fn trace_shows_zero_page_operands() {
    assert_eq!(trace_of(&[0xa5, 0x10], 0, 0), line("0200  A5 10     LDA $10 = 34"));
    assert_eq!(
        trace_of(&[0xb5, 0x0f], 1, 0),
        format!("{:47} A:00 X:01 Y:00 P:24 SP:FD", "0200  B5 0F     LDA $0F,X @ 10 = 34")
    );
    assert_eq!(
        trace_of(&[0xb6, 0x0f], 0, 2),
        format!("{:47} A:00 X:00 Y:02 P:24 SP:FD", "0200  B6 0F     LDX $0F,Y @ 11 = 12")
    );
}

#[test]
fn trace_shows_absolute_operands() {
    assert_eq!(trace_of(&[0xad, 0x34, 0x12], 0, 0), line("0200  AD 34 12  LDA $1234 = 5A"));
    assert_eq!(
        trace_of(&[0xbd, 0x34, 0x12], 2, 0),
        format!("{:47} A:00 X:02 Y:00 P:24 SP:FD", "0200  BD 34 12  LDA $1234,X @ 1236 = 6B")
    );
    assert_eq!(
        trace_of(&[0xb9, 0x34, 0x12], 0, 2),
        format!("{:47} A:00 X:00 Y:02 P:24 SP:FD", "0200  B9 34 12  LDA $1234,Y @ 1236 = 6B")
    );
}

#[test]
fn trace_shows_indirect_operands() {
    assert_eq!(
        trace_of(&[0xa1, 0x0e], 2, 0),
        format!(
            "{:47} A:00 X:02 Y:00 P:24 SP:FD",
            "0200  A1 0E     LDA ($0E,X) @ 10 = 1234 = 5A"
        )
    );
    assert_eq!(
        trace_of(&[0xb1, 0x10], 0, 2),
        format!(
            "{:47} A:00 X:00 Y:02 P:24 SP:FD",
            "0200  B1 10     LDA ($10),Y = 1234 @ 1236 = 6B"
        )
    );
}

#[test]
fn trace_shows_jump_and_branch_targets() {
    assert_eq!(trace_of(&[0x4c, 0x34, 0x12], 0, 0), line("0200  4C 34 12  JMP $1234"));
    assert_eq!(trace_of(&[0x20, 0x34, 0x12], 0, 0), line("0200  20 34 12  JSR $1234"));
    assert_eq!(trace_of(&[0x6c, 0x10, 0x00], 0, 0), line("0200  6C 10 00  JMP ($0010) = 1234"));
    assert_eq!(trace_of(&[0xd0, 0x05], 0, 0), line("0200  D0 05     BNE $0207"));
    assert_eq!(trace_of(&[0xd0, 0xfe], 0, 0), line("0200  D0 FE     BNE $0200"));
}

#[test]
fn trace_does_not_disturb_the_machine() {
    let mut bus = Bus::new(test_rom());
    // LDA $2002: the operand is the PPU status register
    bus.mem_write(0x0200, 0xad).unwrap();
    bus.mem_write(0x0201, 0x02).unwrap();
    bus.mem_write(0x0202, 0x20).unwrap();
    // first byte of the VRAM pointer: the write latch is now on the low byte
    bus.mem_write(0x2006, 0x21).unwrap();
    let mut cpu = CPU::new(bus);
    cpu.program_counter = 0x0200;
    assert_eq!(log(&cpu), line("0200  AD 02 20  LDA $2002 = 00"));
    assert_eq!(log(&cpu), line("0200  AD 02 20  LDA $2002 = 00"));
    // the latch was not reset by the trace: this byte is the low byte
    cpu.mem_write(0x2006, 0x08).unwrap();
    cpu.mem_write(0x2007, 0x99).unwrap();
    assert_eq!(cpu.bus.ppu().peek(0x2108), 0x99);
}
