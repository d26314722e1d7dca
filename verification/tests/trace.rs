use nes_emu::apu::NesAPU;
use nes_emu::bus::{Bus, Mem};
use nes_emu::cpu::{AddressingMode, CPU};
use nes_emu::mapper::create_mapper;
use nes_emu::opscodes::decode;
use nes_emu::ppu::NesPPU;
use nes_emu::rom::{Mirroring, Rom};
use nes_emu::trace::{address, binary, cpu2str, disasm, make_word, memory_access, to_string, trace};

fn cpu() -> CPU {
    let mut rom = Rom::empty();
    rom.prg_rom = vec![0; 0x8000];
    rom.chr_rom = vec![0; 0x2000];
    let ppu = NesPPU::new(rom.chr_rom.clone(), Mirroring::VERTICAL);
    CPU::new(Bus::new(NesAPU::new(), ppu, create_mapper(rom)))
}

fn run_traced(cpu: &mut CPU, steps: usize) -> Vec<String> {
    let mut result = Vec::new();
    for _ in 0..steps {
        let (op, _) = cpu.fetch();
        let op = op.unwrap();
        result.push(trace(cpu));
        cpu.execute(&op);
    }
    result
}

#[test]
fn test_format_trace() {
    let mut cpu = cpu();
    cpu.mem_write(100, 0xa2);
    cpu.mem_write(101, 0x01);
    cpu.mem_write(102, 0xca);
    cpu.mem_write(103, 0x88);
    cpu.mem_write(104, 0x00);
    cpu.program_counter = 0x64;
    cpu.register_a = 1;
    cpu.register_x = 2;
    cpu.register_y = 3;
    let result = run_traced(&mut cpu, 3);
    assert_eq!(
        "0064  A2 01     LDX #$01                        A:01 X:02 Y:03 P:24 SP:FD",
        result[0]
    );
    assert_eq!(
        "0066  CA        DEX                             A:01 X:01 Y:03 P:24 SP:FD",
        result[1]
    );
    assert_eq!(
        "0067  88        DEY                             A:01 X:00 Y:03 P:26 SP:FD",
        result[2]
    );
}

#[test]
fn test_format_mem_access() {
    let mut cpu = cpu();
    // ORA ($33), Y
    cpu.mem_write(100, 0x11);
    cpu.mem_write(101, 0x33);
    cpu.mem_write(0x33, 0x00);
    cpu.mem_write(0x34, 0x04);
    cpu.mem_write(0x400, 0xaa);
    cpu.program_counter = 0x64;
    cpu.register_y = 0;
    let result = run_traced(&mut cpu, 1);
    assert_eq!(
        "0064  11 33     ORA ($33),Y = 0400 @ 0400 = AA  A:00 X:00 Y:00 P:24 SP:FD",
        result[0]
    );
}

#[test]
fn test_trace_of_an_undocumented_instruction() {
    let mut cpu = cpu();
    cpu.mem_write(0x10, 0xa7);
    cpu.mem_write(0x11, 0x80);
    cpu.mem_write(0x80, 0x5c);
    cpu.program_counter = 0x10;
    let result = run_traced(&mut cpu, 1);
    assert_eq!(
        "0010  A7 80    *LAX $80 = 5C                    A:00 X:00 Y:00 P:24 SP:FD",
        result[0]
    );
}

#[test]
fn test_binary() {
    assert_eq!(binary(0xA9, &vec![]), "A9");
    assert_eq!(binary(0x0A, &vec![0x05]), "0A 05");
    assert_eq!(binary(0xAD, &vec![0x00, 0xFF]), "AD 00 FF");
    assert_eq!(to_string(&vec!['a', 'b']), "ab");
    assert_eq!(make_word(0x34, 0x12), 0x1234);
}

#[test]
fn test_address_in_every_mode() {
    let cases: [(u8, &[u8], &str); 13] = [
        (0xEA, &[], ""),
        (0x0A, &[], "A"),
        (0xA9, &[0x44], "#$44"),
        (0xA5, &[0x44], "$44"),
        (0xAD, &[0x00, 0x44], "$4400"),
        (0xB5, &[0x44], "$44,X"),
        (0xB6, &[0x44], "$44,Y"),
        (0xBD, &[0x00, 0x44], "$4400,X"),
        (0xB9, &[0x00, 0x44], "$4400,Y"),
        (0x6C, &[0x34, 0x12], "($1234)"),
        (0xA1, &[0x44], "($44,X)"),
        (0xB1, &[0x44], "($44),Y"),
        (0x90, &[0x04], "$0496"),
    ];
    for (code, args, expected) in cases {
        let ops = decode(code).unwrap();
        assert_eq!(address(0x0490, &ops, &args.to_vec()), expected, "{:02X}", code);
    }
    // a branch backwards
    let ops = decode(0xD0).unwrap();
    assert_eq!(address(0x8010, &ops, &vec![0xFC]), "$800E");
    assert_eq!(ops.addressing_mode, AddressingMode::Relative);
}

#[test]
fn test_disasm() {
    assert_eq!(disasm(0, &decode(0xA9).unwrap(), &vec![0x01]), " LDA #$01");
    assert_eq!(disasm(0, &decode(0xEA).unwrap(), &vec![]), " NOP ");
    assert_eq!(disasm(0, &decode(0x1A).unwrap(), &vec![]), "*NOP ");
    assert_eq!(disasm(0, &decode(0xEB).unwrap(), &vec![0x10]), "*SBC #$10");
    assert_eq!(disasm(0, &decode(0x4C).unwrap(), &vec![0x00, 0x80]), " JMP $8000");
}

#[test]
fn test_memory_access() {
    let mut cpu = cpu();
    cpu.register_x = 2;
    cpu.register_y = 3;
    cpu.mem_write(0x0010, 0x20);
    cpu.mem_write(0x0011, 0x06);
    cpu.mem_write(0x0012, 0x30);
    cpu.mem_write(0x0013, 0x07);
    cpu.mem_write(0x0620, 0xA1);
    cpu.mem_write(0x0622, 0xA2);
    cpu.mem_write(0x0623, 0xA3);
    cpu.mem_write(0x0730, 0xA4);
    let cases: [(u8, &[u8], &str); 12] = [
        (0xAD, &[0x20, 0x06], "= A1"),
        (0xBD, &[0x20, 0x06], "@ 0622 = A2"),
        (0xB9, &[0x20, 0x06], "@ 0623 = A3"),
        (0xA5, &[0x10], "= 20"),
        (0xB5, &[0x10], "@ 12 = 30"),
        (0xB6, &[0x10], "@ 13 = 07"),
        (0xA1, &[0x10], "@ 12 = 0730 = A4"),
        (0xB1, &[0x10], "= 0620 @ 0623 = A3"),
        (0x6C, &[0x10, 0x00], "= 0620"),
        (0x4C, &[0x10, 0x00], ""),
        (0x20, &[0x10, 0x00], ""),
        (0xA9, &[0x10], ""),
    ];
    for (code, args, expected) in cases {
        let ops = decode(code).unwrap();
        assert_eq!(memory_access(&mut cpu, &ops, &args.to_vec()), expected, "{:02X}", code);
    }
}

#[test]
fn test_cpu2str() {
    let mut cpu = cpu();
    cpu.register_a = 0xAB;
    cpu.register_x = 0x01;
    cpu.register_y = 0xF0;
    cpu.status = 0x00;
    cpu.stack_pointer = 0x9C;
    assert_eq!(cpu2str(&cpu), "A:AB X:01 Y:F0 P:00 SP:9C");
}
