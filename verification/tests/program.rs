use nes_core::bus::Bus;
use nes_core::cpu::model::Stop;
use nes_core::cpu::{Mem, CPU};
use nes_core::program::{assemble_cartridge, program_bytes, read_field, read_list, remove_line_ends};
use nes_core::rom::{Mirroring, Rom};

fn read(text: &str) -> Vec<u8> {
    program_bytes(&text.as_bytes().to_vec())
}

// the same list read with the string functions of the standard library
fn read_with_std(text: &str) -> Vec<u8> {
    let cleaned = text.trim().replace("\r\n", "");
    cleaned
        .split(',')
        .filter_map(|s| {
            let trimmed = s.trim();
            if !trimmed.is_empty() {
                u8::from_str_radix(trimmed.trim_start_matches("0x"), 16).ok()
            } else {
                None
            }
        })
        .collect()
}

#[test]
fn a_list_of_hexadecimal_bytes() {
    assert_eq!(read("0xA9, 0x05, 0xAA, 0xE8, 0x00"), vec![0xA9, 0x05, 0xAA, 0xE8, 0x00]);
    assert_eq!(read("a9,5,AA,e8,0"), vec![0xA9, 0x05, 0xAA, 0xE8, 0x00]);
    assert_eq!(read(""), Vec::<u8>::new());
    assert_eq!(read("7"), vec![0x07]);
    assert_eq!(read("ff"), vec![0xFF]);
}

#[test]
fn blanks_and_line_ends_are_passed_over() {
    assert_eq!(read("  0x01 ,\t0x02\t,\n0x03\n"), vec![1, 2, 3]);
    assert_eq!(read("0x01,\r\n0x02,\r\n0x03\r\n"), vec![1, 2, 3]);
    assert_eq!(read("\r\n\r\n1\r\n2\r\n"), vec![0x12]);
    assert_eq!(read("0\r\nx\r\n4\r\n1"), vec![0x41]);
    assert_eq!(read("\x0B1\x0C"), vec![1]);
}

#[test]
fn what_is_no_byte_is_passed_over() {
    assert_eq!(read("0x01,,0x02, ,0x03,"), vec![1, 2, 3]);
    assert_eq!(read("zz,0x04,0xG1,1 2,0x05"), vec![4, 5]);
    assert_eq!(read("100,0x100,0xFF,0x0FF,0x000000000000000000FF, 0100"), vec![0xFF, 0xFF, 0xFF]);
    assert_eq!(read("0x,0x0x,x,0x0"), vec![0]);
    assert_eq!(read("0X12,0x12"), vec![0x12]);
    assert_eq!(read("-1,+1,+,++1,+0x1"), vec![1]);
    assert_eq!(read("1\r2,1\n2,3"), vec![3]);
    assert_eq!(read("\u{e9},4"), vec![4]);
}

#[test]
fn the_prefix_may_be_repeated() {
    assert_eq!(read("0x0x0x12"), vec![0x12]);
    assert_eq!(read("0x0x"), Vec::<u8>::new());
    assert_eq!(read("0x00x1"), Vec::<u8>::new());
    assert_eq!(read("00x1"), Vec::<u8>::new());
}

#[test]
fn the_list_is_read_as_the_string_functions_read_it() {
    for text in [
        "",
        ",",
        ",,",
        "0xA9, 0x05, 0xAA,\r\n0xE8, 0x00",
        "  a9 , 0XFF,zz,,100, ff ,+7,0x0x12, 1 2,-1,0x  ",
        "\r\n0x01,\r\n 0x02 \r\n,0x03\r\n",
        "\r\r\n\n1",
        "1\r\r\n\n",
        "\n1\r",
        "0\r\n0",
        "+0x1,0x+1,+ 1, +1",
        "000000000000000000000000000000000001,00000000000000000000000000000000100",
        "f,F,g,G,0xf,0xF,fF,Ff",
        "1,\t2\t,\x0B3\x0B,\x0C4\x0C, 5 ,\n6\n,\r7\r",
        "x,0,x0,0x,0x0,0x00,0xx0",
    ] {
        assert_eq!(read(text), read_with_std(text), "text {:?}", text);
    }
}

#[test]
fn line_ends_are_removed_in_one_pass() {
    let clean = |text: &str| remove_line_ends(&text.as_bytes().to_vec());
    assert_eq!(clean("a\r\nb"), b"ab".to_vec());
    assert_eq!(clean("\r\n"), b"".to_vec());
    assert_eq!(clean("\r\r\n\n"), b"\r\n".to_vec());
    assert_eq!(clean("\n\r"), b"\n\r".to_vec());
    assert_eq!(clean("a\rb\nc\r"), b"a\rb\nc\r".to_vec());
    assert_eq!(clean(""), b"".to_vec());
}

#[test]
fn fields_are_read_one_by_one() {
    let text = b" 0x1f ,zz".to_vec();
    assert_eq!(read_field(&text, 0, 6), Some(0x1F));
    assert_eq!(read_field(&text, 1, 5), Some(0x1F));
    assert_eq!(read_field(&text, 3, 5), Some(0x1F));
    assert_eq!(read_field(&text, 4, 5), Some(0x0F));
    assert_eq!(read_field(&text, 1, 3), None);
    assert_eq!(read_field(&text, 0, 7), None);
    assert_eq!(read_field(&text, 7, 9), None);
    assert_eq!(read_field(&text, 2, 2), None);
    assert_eq!(read_list(&text), vec![0x1F]);
    assert_eq!(read_list(&b"1\r\n2".to_vec()), Vec::<u8>::new());
}

#[test]
fn the_cartridge_of_a_program_has_it_at_0x8600() {
    let program = vec![0xA9, 0x05, 0xAA, 0xE8, 0x00];
    let image = assemble_cartridge(&program);
    assert_eq!(image.len(), 16 + 0x8000);
    assert_eq!(
        &image[..16],
        &[0x4E, 0x45, 0x53, 0x1A, 0x02, 0x00, 0x01, 0x00, 0, 0, 0, 0, 0, 0, 0, 0]
    );
    assert!(image[16..16 + 0x600].iter().all(|b| *b == 0));
    assert_eq!(&image[16 + 0x600..16 + 0x605], &program[..]);
    assert!(image[16 + 0x605..16 + 0x7FFC].iter().all(|b| *b == 0));
    assert_eq!(&image[16 + 0x7FFC..], &[0x00, 0x86, 0x00, 0x00]);

    let parts = Rom::new(&image).unwrap().into_parts();
    assert_eq!(parts.prg_rom.len(), 0x8000);
    assert!(parts.chr_rom.is_empty());
    assert_eq!(parts.mapper_type, 0);
    assert_eq!(parts.mirror_mode, Mirroring::VERTICAL);

    let mut bus = Bus::new(Rom::new(&image).unwrap());
    assert_eq!(bus.mem_read(0x8600), 0xA9);
    assert_eq!(bus.mem_read_u16(0xFFFC), 0x8600);
    let mut cpu = CPU::new(bus);
    cpu.reset();
    assert_eq!(cpu.program_counter, 0x8600);
    assert_eq!(cpu.run_with_callback(|_| {}), Stop::Halted);
    assert_eq!((cpu.register_a, cpu.register_x), (5, 6));
}

#[test]
fn the_cartridge_of_no_program_is_all_zeros_but_the_vector() {
    let image = assemble_cartridge(&vec![]);
    assert_eq!(image.len(), 16 + 0x8000);
    assert!(image[16..16 + 0x7FFC].iter().all(|b| *b == 0));
    assert_eq!(&image[16 + 0x7FFC..], &[0x00, 0x86, 0x00, 0x00]);
}

#[test]
fn the_longest_program_reaches_up_to_the_vector() {
    let image = assemble_cartridge(&vec![0xEA; 0x79FC]);
    assert_eq!(image.len(), 16 + 0x8000);
    assert_eq!(image[16 + 0x7FFB], 0xEA);
    assert_eq!(&image[16 + 0x7FFC..], &[0x00, 0x86, 0x00, 0x00]);
    let image = assemble_cartridge(&vec![0xEA; 0x79FB]);
    assert_eq!(image.len(), 16 + 0x8000);
    assert_eq!(image[16 + 0x7FFA], 0xEA);
    assert_eq!(image[16 + 0x7FFB], 0x00);
}

#[test]
fn a_longer_program_pushes_the_vector_back() {
    let image = assemble_cartridge(&vec![0xEA; 0x79FD]);
    assert_eq!(image.len(), 16 + 0x8001);
    assert_eq!(image[16 + 0x7FFC], 0xEA);
    assert_eq!(&image[16 + 0x7FFD..], &[0x00, 0x86, 0x00, 0x00]);
}

#[test]
fn text_to_cartridge_to_cpu() {
    // LDX #$03; loop: DEX; BNE loop; STX $10; BRK
    let text = "0xA2, 0x03,\r\n0xCA,\r\n0xD0, 0xFD,\r\n0x86, 0x10,\r\n0x00\r\n";
    let image = assemble_cartridge(&program_bytes(&text.as_bytes().to_vec()));
    let mut cpu = CPU::new(Bus::new(Rom::new(&image).unwrap()));
    cpu.mem_write(0x10, 0xFF).unwrap();
    cpu.reset();
    assert_eq!(cpu.run_for(100, |_| {}), Stop::Halted);
    assert_eq!(cpu.register_x, 0);
    assert_eq!(cpu.mem_read(0x10), 0);
    assert_eq!(cpu.program_counter, 0x8608);
}
