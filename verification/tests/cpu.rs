use nes_emu::apu::events::SquareEvent;
use nes_emu::apu::NesAPU;
use nes_emu::bus::{Bus, Mem};
use nes_emu::cpu::{AddressingMode, CycleCalcMode, OpCode, CPU};
use nes_emu::joypad::JoypadButton;
use nes_emu::mapper::{create_mapper, AnyMapper, Mapper};
use nes_emu::opscodes::{call, decode, is_official, letters, Decoded, Instruction};
use nes_emu::ppu::NesPPU;
use nes_emu::rom::{Mirroring, Rom};

const FLAG_CARRY: u8 = 0x01;
const FLAG_ZERO: u8 = 0x02;
const FLAG_INTERRUPT: u8 = 0x04;
const FLAG_BREAK: u8 = 0x10;
const FLAG_BREAK2: u8 = 0x20;
const FLAG_OVERFLOW: u8 = 0x40;
const FLAG_NEGATIVE: u8 = 0x80;

fn bus_with(program: &[u8]) -> Bus {
    let mut rom = Rom::empty();
    rom.prg_rom = vec![0; 0x8000];
    rom.prg_rom[..program.len()].copy_from_slice(program);
    // reset vector $8000, interrupt vectors $9000 and $A000
    rom.prg_rom[0x7FFA] = 0x00;
    rom.prg_rom[0x7FFB] = 0x90;
    rom.prg_rom[0x7FFC] = 0x00;
    rom.prg_rom[0x7FFD] = 0x80;
    rom.prg_rom[0x7FFE] = 0x00;
    rom.prg_rom[0x7FFF] = 0xA0;
    rom.chr_rom = vec![0; 0x2000];
    let ppu = NesPPU::new(rom.chr_rom.clone(), Mirroring::VERTICAL);
    Bus::new(NesAPU::new(), ppu, create_mapper(rom))
}

fn step(cpu: &mut CPU) -> Option<Decoded> {
    let (op, _) = cpu.fetch();
    if let Some(op) = op {
        cpu.execute(&op);
    }
    assert!(!cpu.bus.fault);
    op
}

// runs a program up to its first BRK
fn run(program: Vec<u8>, setup: impl FnOnce(&mut CPU)) -> CPU {
    let mut cpu = CPU::new(bus_with(&program));
    cpu.reset();
    assert_eq!(cpu.program_counter, 0x8000);
    cpu.status = 0;
    setup(&mut cpu);
    for _ in 0..1000 {
        if cpu.bus.read(cpu.program_counter) == 0x00 {
            return cpu;
        }
        step(&mut cpu);
    }
    panic!("the program did not end");
}

#[test]
fn test_0xa9_lda_immidiate_load_data() {
    let cpu = run(vec![0xa9, 0x05, 0x00], |_| {});
    assert_eq!(cpu.register_a, 0x05);
    assert_eq!(cpu.status, 0);
    assert_eq!(cpu.program_counter, 0x8002);
}

#[test]
fn test_0xa9_lda_zero_flag() {
    let cpu = run(vec![0xa9, 0x00, 0x00], |_| {});
    assert_eq!(cpu.status, FLAG_ZERO);
}

#[test]
fn test_0xa9_lda_negative_flag() {
    let cpu = run(vec![0xa9, 0x80, 0x00], |_| {});
    assert_eq!(cpu.status, FLAG_NEGATIVE);
}

#[test]
fn test_0xaa_tax_move_a_to_x() {
    let cpu = run(vec![0xaa, 0x00], |cpu| {
        cpu.register_a = 10;
    });
    assert_eq!(cpu.register_x, 10);
}

#[test]
fn test_5_ops_working_together() {
    let cpu = run(vec![0xa9, 0xc0, 0xaa, 0xe8, 0x00], |_| {});
    assert_eq!(cpu.register_x, 0xc1);
}

#[test]
fn test_lda_from_memory_in_every_mode() {
    let cpu = run(vec![0xa5, 0x10, 0x00], |cpu| cpu.mem_write(0x10, 0x55));
    assert_eq!(cpu.register_a, 0x55);
    let cpu = run(vec![0xb5, 0x10, 0x00], |cpu| {
        cpu.mem_write(0x11, 0x56);
        cpu.register_x = 0x01;
    });
    assert_eq!(cpu.register_a, 0x56);
    // zero page wraps
    let cpu = run(vec![0xb5, 0xFF, 0x00], |cpu| {
        cpu.mem_write(0x01, 0x57);
        cpu.register_x = 0x02;
    });
    assert_eq!(cpu.register_a, 0x57);
    let cpu = run(vec![0xad, 0x10, 0x06, 0x00], |cpu| cpu.mem_write(0x0610, 0x58));
    assert_eq!(cpu.register_a, 0x58);
    let cpu = run(vec![0xbd, 0x10, 0x06, 0x00], |cpu| {
        cpu.mem_write(0x0611, 0x59);
        cpu.register_x = 0x01;
    });
    assert_eq!(cpu.register_a, 0x59);
    let cpu = run(vec![0xb9, 0x10, 0x06, 0x00], |cpu| {
        cpu.mem_write(0x0618, 0x5A);
        cpu.register_y = 0x08;
    });
    assert_eq!(cpu.register_a, 0x5A);
    let cpu = run(vec![0xa1, 0x10, 0x00], |cpu| {
        cpu.mem_write(0x18, 0x05);
        cpu.mem_write(0x19, 0x07);
        cpu.mem_write(0x0705, 0x5B);
        cpu.register_x = 0x08;
    });
    assert_eq!(cpu.register_a, 0x5B);
    let cpu = run(vec![0xb1, 0x10, 0x00], |cpu| {
        cpu.mem_write(0x10, 0x06);
        cpu.mem_write(0x11, 0x07);
        cpu.mem_write(0x0709, 0x5C);
        cpu.register_y = 0x03;
    });
    assert_eq!(cpu.register_a, 0x5C);
}

#[test]
fn test_sta_stx_sty() {
    let mut cpu = run(vec![0x85, 0x10, 0x86, 0x11, 0x84, 0x12, 0x00], |cpu| {
        cpu.register_a = 0xBA;
        cpu.register_x = 0xBB;
        cpu.register_y = 0xBC;
    });
    assert_eq!(cpu.mem_read(0x10), 0xBA);
    assert_eq!(cpu.mem_read(0x11), 0xBB);
    assert_eq!(cpu.mem_read(0x12), 0xBC);
}

#[test]
fn test_adc() {
    let cpu = run(vec![0x69, 0x10, 0x00], |cpu| cpu.register_a = 0x20);
    assert_eq!((cpu.register_a, cpu.status), (0x30, 0));
    let cpu = run(vec![0x69, 0x10, 0x00], |cpu| {
        cpu.register_a = 0x20;
        cpu.status = FLAG_CARRY;
    });
    assert_eq!((cpu.register_a, cpu.status), (0x31, 0));
    let cpu = run(vec![0x69, 0x01, 0x00], |cpu| cpu.register_a = 0xFF);
    assert_eq!((cpu.register_a, cpu.status), (0x00, FLAG_CARRY | FLAG_ZERO));
    let cpu = run(vec![0x69, 0x01, 0x00], |cpu| cpu.register_a = 0x7F);
    assert_eq!((cpu.register_a, cpu.status), (0x80, FLAG_NEGATIVE | FLAG_OVERFLOW));
    let cpu = run(vec![0x69, 0x6F, 0x00], |cpu| {
        cpu.register_a = 0x10;
        cpu.status = FLAG_CARRY;
    });
    assert_eq!((cpu.register_a, cpu.status), (0x80, FLAG_NEGATIVE | FLAG_OVERFLOW));
    let cpu = run(vec![0x69, 0x81, 0x00], |cpu| cpu.register_a = 0x81);
    assert_eq!((cpu.register_a, cpu.status), (0x02, FLAG_OVERFLOW | FLAG_CARRY));
    let cpu = run(vec![0x69, 0x80, 0x00], |cpu| {
        cpu.register_a = 0x80;
        cpu.status = FLAG_CARRY;
    });
    assert_eq!((cpu.register_a, cpu.status), (0x01, FLAG_OVERFLOW | FLAG_CARRY));
    let cpu = run(vec![0x69, 0x7F, 0x00], |cpu| cpu.register_a = 0x82);
    assert_eq!((cpu.register_a, cpu.status), (0x01, FLAG_CARRY));
    let cpu = run(vec![0x69, 0xFF, 0x00], |cpu| {
        cpu.register_a = 0x00;
        cpu.status = FLAG_CARRY;
    });
    assert_eq!((cpu.register_a, cpu.status), (0x00, FLAG_CARRY | FLAG_ZERO));
}

#[test]
fn test_sbc() {
    let cpu = run(vec![0xe9, 0x10, 0x00], |cpu| cpu.register_a = 0x20);
    assert_eq!((cpu.register_a, cpu.status), (0x0F, FLAG_CARRY));
    let cpu = run(vec![0xe9, 0x10, 0x00], |cpu| {
        cpu.register_a = 0x20;
        cpu.status = FLAG_CARRY;
    });
    assert_eq!((cpu.register_a, cpu.status), (0x10, FLAG_CARRY));
    let cpu = run(vec![0xe9, 0x02, 0x00], |cpu| cpu.register_a = 0x01);
    assert_eq!((cpu.register_a, cpu.status), (0xFE, FLAG_NEGATIVE));
    let cpu = run(vec![0xe9, 0x81, 0x00], |cpu| cpu.register_a = 0x7F);
    assert_eq!((cpu.register_a, cpu.status), (0xFD, FLAG_NEGATIVE | FLAG_OVERFLOW));
    let cpu = run(vec![0xe9, 0x7F, 0x00], |cpu| {
        cpu.register_a = 0x7E;
        cpu.status = FLAG_CARRY;
    });
    assert_eq!((cpu.register_a, cpu.status), (0xFF, FLAG_NEGATIVE));
    let cpu = run(vec![0xe9, 0x01, 0x00], |cpu| {
        cpu.register_a = 0x01;
        cpu.status = FLAG_CARRY;
    });
    assert_eq!((cpu.register_a, cpu.status), (0x00, FLAG_CARRY | FLAG_ZERO));
    // the undocumented opcode $EB subtracts too
    let cpu = run(vec![0xeb, 0x10, 0x00], |cpu| {
        cpu.register_a = 0x20;
        cpu.status = FLAG_CARRY;
    });
    assert_eq!(cpu.register_a, 0x10);
}

#[test]
fn test_and_eor_ora_bit() {
    let cpu = run(vec![0x29, 0x0C, 0x00], |cpu| cpu.register_a = 0x0A);
    assert_eq!((cpu.register_a, cpu.status), (0x08, 0));
    let cpu = run(vec![0x49, 0x0C, 0x00], |cpu| cpu.register_a = 0x0A);
    assert_eq!((cpu.register_a, cpu.status), (0x06, 0));
    let cpu = run(vec![0x09, 0x8C, 0x00], |cpu| cpu.register_a = 0x0A);
    assert_eq!((cpu.register_a, cpu.status), (0x8E, FLAG_NEGATIVE));
    let cpu = run(vec![0x24, 0x00, 0x00], |cpu| {
        cpu.register_a = 0x00;
        cpu.mem_write(0x0000, 0x00);
    });
    assert_eq!(cpu.status, FLAG_ZERO);
    let cpu = run(vec![0x24, 0x00, 0x00], |cpu| {
        cpu.register_a = 0x00;
        cpu.mem_write(0x0000, 0x80);
    });
    assert_eq!(cpu.status, FLAG_NEGATIVE | FLAG_ZERO);
    let cpu = run(vec![0x24, 0x00, 0x00], |cpu| {
        cpu.register_a = 0x40;
        cpu.mem_write(0x0000, 0x40);
    });
    assert_eq!(cpu.status, FLAG_OVERFLOW);
}

#[test]
fn test_shifts_and_rotates() {
    let cpu = run(vec![0x0a, 0x00], |cpu| cpu.register_a = 0x03);
    assert_eq!((cpu.register_a, cpu.status), (0x06, 0));
    let cpu = run(vec![0x0a, 0x00], |cpu| cpu.register_a = 0x81);
    assert_eq!((cpu.register_a, cpu.status), (0x02, FLAG_CARRY));
    let mut cpu = run(vec![0x06, 0x01, 0x00], |cpu| cpu.mem_write(0x0001, 0x83));
    assert_eq!((cpu.mem_read(0x0001), cpu.status), (0x06, FLAG_CARRY));
    let cpu = run(vec![0x4a, 0x00], |cpu| cpu.register_a = 0x02);
    assert_eq!((cpu.register_a, cpu.status), (0x01, 0));
    let cpu = run(vec![0x4a, 0x00], |cpu| cpu.register_a = 0x03);
    assert_eq!((cpu.register_a, cpu.status), (0x01, FLAG_CARRY));
    let mut cpu = run(vec![0x46, 0x01, 0x00], |cpu| cpu.mem_write(0x0001, 0x01));
    assert_eq!((cpu.mem_read(0x0001), cpu.status), (0x00, FLAG_ZERO | FLAG_CARRY));
    let cpu = run(vec![0x2a, 0x00], |cpu| {
        cpu.register_a = 0x03;
        cpu.status = FLAG_CARRY;
    });
    assert_eq!((cpu.register_a, cpu.status), (0x07, 0));
    let cpu = run(vec![0x2a, 0x00], |cpu| cpu.register_a = 0x80);
    assert_eq!((cpu.register_a, cpu.status), (0x00, FLAG_ZERO | FLAG_CARRY));
    let mut cpu = run(vec![0x26, 0x01, 0x00], |cpu| {
        cpu.mem_write(0x0001, 0x40);
        cpu.status = FLAG_CARRY;
    });
    assert_eq!((cpu.mem_read(0x0001), cpu.status), (0x81, FLAG_NEGATIVE));
    let cpu = run(vec![0x6a, 0x00], |cpu| {
        cpu.register_a = 0x02;
        cpu.status = FLAG_CARRY;
    });
    assert_eq!((cpu.register_a, cpu.status), (0x81, FLAG_NEGATIVE));
    let cpu = run(vec![0x6a, 0x00], |cpu| cpu.register_a = 0x03);
    assert_eq!((cpu.register_a, cpu.status), (0x01, FLAG_CARRY));
    let mut cpu = run(vec![0x66, 0x01, 0x00], |cpu| cpu.mem_write(0x0001, 0x01));
    assert_eq!((cpu.mem_read(0x0001), cpu.status), (0x00, FLAG_ZERO | FLAG_CARRY));
}

#[test]
fn test_branches() {
    // BCC +2 over INX
    let cpu = run(vec![0x90, 0x02, 0x00, 0x00, 0xe8, 0x00], |_| {});
    assert_eq!((cpu.register_x, cpu.program_counter), (1, 0x8005));
    let cpu = run(vec![0x90, 0x02, 0x00, 0x00, 0xe8, 0x00], |cpu| cpu.status = FLAG_CARRY);
    assert_eq!((cpu.register_x, cpu.program_counter), (0, 0x8002));
    // a branch backwards
    let cpu = run(vec![0x90, 0xfc, 0x00], |cpu| {
        cpu.mem_write(0x7FFF, 0x00);
    });
    assert_eq!(cpu.program_counter, 0x7FFE);
    let cpu = run(vec![0xb0, 0x02, 0x00, 0x00, 0xe8, 0x00], |cpu| cpu.status = FLAG_CARRY);
    assert_eq!(cpu.register_x, 1);
    let cpu = run(vec![0xf0, 0x02, 0x00, 0x00, 0xe8, 0x00], |cpu| cpu.status = FLAG_ZERO);
    assert_eq!(cpu.register_x, 1);
    let cpu = run(vec![0xd0, 0x02, 0x00, 0x00, 0xe8, 0x00], |_| {});
    assert_eq!(cpu.register_x, 1);
    let cpu = run(vec![0x30, 0x02, 0x00, 0x00, 0xe8, 0x00], |cpu| cpu.status = FLAG_NEGATIVE);
    assert_eq!(cpu.register_x, 1);
    let cpu = run(vec![0x10, 0x02, 0x00, 0x00, 0xe8, 0x00], |_| {});
    assert_eq!(cpu.register_x, 1);
    let cpu = run(vec![0x50, 0x02, 0x00, 0x00, 0xe8, 0x00], |_| {});
    assert_eq!(cpu.register_x, 1);
    let cpu = run(vec![0x70, 0x02, 0x00, 0x00, 0xe8, 0x00], |cpu| cpu.status = FLAG_OVERFLOW);
    assert_eq!(cpu.register_x, 1);
    let cpu = run(vec![0x70, 0x02, 0x00, 0x00, 0xe8, 0x00], |_| {});
    assert_eq!(cpu.register_x, 0);
}

#[test]
fn test_flag_instructions() {
    assert_eq!(run(vec![0x18, 0x00], |cpu| cpu.status = 0xFF).status, 0xFE);
    assert_eq!(run(vec![0x38, 0x00], |_| {}).status, FLAG_CARRY);
    assert_eq!(run(vec![0xd8, 0x00], |cpu| cpu.status = 0xFF).status, 0xF7);
    assert_eq!(run(vec![0xf8, 0x00], |_| {}).status, 0x08);
    assert_eq!(run(vec![0x58, 0x00], |cpu| cpu.status = 0xFF).status, 0xFB);
    assert_eq!(run(vec![0x78, 0x00], |_| {}).status, FLAG_INTERRUPT);
    assert_eq!(run(vec![0xb8, 0x00], |cpu| cpu.status = 0xFF).status, 0xBF);
}

#[test]
fn test_compare() {
    let cpu = run(vec![0xc9, 0x01, 0x00], |cpu| cpu.register_a = 0x02);
    assert_eq!(cpu.status, FLAG_CARRY);
    let cpu = run(vec![0xc9, 0x02, 0x00], |cpu| cpu.register_a = 0x02);
    assert_eq!(cpu.status, FLAG_CARRY | FLAG_ZERO);
    let cpu = run(vec![0xc9, 0x03, 0x00], |cpu| cpu.register_a = 0x02);
    assert_eq!(cpu.status, FLAG_NEGATIVE);
    let cpu = run(vec![0xe0, 0x01, 0x00], |cpu| cpu.register_x = 0x02);
    assert_eq!(cpu.status, FLAG_CARRY);
    let cpu = run(vec![0xc0, 0x01, 0x00], |cpu| cpu.register_y = 0x02);
    assert_eq!(cpu.status, FLAG_CARRY);
}

#[test]
fn test_increments_and_decrements() {
    let mut cpu = run(vec![0xc6, 0x01, 0x00], |cpu| cpu.mem_write(0x0001, 0x05));
    assert_eq!((cpu.mem_read(0x0001), cpu.status), (0x04, 0));
    let mut cpu = run(vec![0xc6, 0x01, 0x00], |cpu| cpu.mem_write(0x0001, 0x00));
    assert_eq!((cpu.mem_read(0x0001), cpu.status), (0xFF, FLAG_NEGATIVE));
    let mut cpu = run(vec![0xe6, 0x01, 0x00], |cpu| cpu.mem_write(0x0001, 0xFF));
    assert_eq!((cpu.mem_read(0x0001), cpu.status), (0x00, FLAG_ZERO));
    let cpu = run(vec![0xca, 0x00], |cpu| cpu.register_x = 0x00);
    assert_eq!((cpu.register_x, cpu.status), (0xFF, FLAG_NEGATIVE));
    let cpu = run(vec![0x88, 0x00], |cpu| cpu.register_y = 0x05);
    assert_eq!(cpu.register_y, 0x04);
    let cpu = run(vec![0xe8, 0x00], |cpu| cpu.register_x = 0xFF);
    assert_eq!((cpu.register_x, cpu.status), (0x00, FLAG_ZERO));
    let cpu = run(vec![0xc8, 0x00], |cpu| cpu.register_y = 0x7F);
    assert_eq!((cpu.register_y, cpu.status), (0x80, FLAG_NEGATIVE));
}

#[test]
fn test_jmp_jsr_rts() {
    let cpu = run(vec![0x4c, 0x30, 0x06, 0x00], |cpu| {
        cpu.mem_write(0x0630, 0xe8);
        cpu.mem_write(0x0631, 0x00);
    });
    assert_eq!((cpu.register_x, cpu.program_counter), (1, 0x0631));
    let cpu = run(vec![0x6c, 0x01, 0x00, 0x00], |cpu| {
        cpu.mem_write(0x0001, 0x02);
        cpu.mem_write(0x0002, 0x06);
        cpu.mem_write(0x0602, 0xe8);
        cpu.mem_write(0x0603, 0x00);
    });
    assert_eq!((cpu.register_x, cpu.program_counter), (1, 0x0603));
    let mut cpu = run(vec![0x20, 0x30, 0x06, 0x00], |cpu| {
        cpu.mem_write(0x0630, 0xe8);
        cpu.mem_write(0x0631, 0x00);
    });
    assert_eq!((cpu.register_x, cpu.program_counter), (1, 0x0631));
    assert_eq!(cpu.stack_pointer, 0xFB);
    assert_eq!(cpu.mem_read(0x01FD), 0x80);
    assert_eq!(cpu.mem_read(0x01FC), 0x02);
    let cpu = run(vec![0x20, 0x30, 0x06, 0xc8, 0x00], |cpu| {
        cpu.mem_write(0x0630, 0xe8);
        cpu.mem_write(0x0631, 0x60);
        cpu.mem_write(0x0632, 0x00);
    });
    assert_eq!((cpu.register_x, cpu.register_y), (1, 1));
    assert_eq!(cpu.program_counter, 0x8004);
    assert_eq!(cpu.stack_pointer, 0xFD);
}

#[test]
fn test_stack_instructions() {
    let mut cpu = run(vec![0x48, 0x00], |cpu| cpu.register_a = 0x07);
    assert_eq!(cpu.stack_pointer, 0xFC);
    assert_eq!(cpu.mem_read(0x01FD), 0x07);
    let cpu = run(vec![0x68, 0x00], |cpu| {
        cpu.mem_write(0x01FE, 0x00);
    });
    assert_eq!((cpu.register_a, cpu.status, cpu.stack_pointer), (0, FLAG_ZERO, 0xFE));
    let cpu = run(vec![0x48, 0xa9, 0x60, 0x68, 0x00], |cpu| cpu.register_a = 0x80);
    assert_eq!((cpu.register_a, cpu.status), (0x80, FLAG_NEGATIVE));
    let mut cpu = run(vec![0x08, 0x00], |cpu| cpu.status = FLAG_NEGATIVE | FLAG_OVERFLOW);
    assert_eq!(cpu.mem_read(0x01FD), FLAG_NEGATIVE | FLAG_OVERFLOW | FLAG_BREAK | FLAG_BREAK2);
    let cpu = run(vec![0x28, 0x00], |cpu| {
        cpu.mem_write(0x01FE, FLAG_CARRY | FLAG_ZERO | FLAG_BREAK);
    });
    assert_eq!(cpu.status, FLAG_CARRY | FLAG_ZERO | FLAG_BREAK2);
    let cpu = run(vec![0x40, 0x00], |cpu| {
        cpu.stack_pointer = 0xFA;
        cpu.mem_write(0x01FB, FLAG_CARRY);
        cpu.mem_write(0x01FC, 0x34);
        cpu.mem_write(0x01FD, 0x06);
        cpu.mem_write(0x0634, 0x00);
    });
    assert_eq!((cpu.status, cpu.program_counter), (FLAG_CARRY | FLAG_BREAK2, 0x0634));
}

#[test]
fn test_transfers() {
    assert_eq!(run(vec![0x8a, 0x00], |cpu| cpu.register_x = 0x10).register_a, 0x10);
    assert_eq!(run(vec![0xa8, 0x00], |cpu| cpu.register_a = 0x10).register_y, 0x10);
    assert_eq!(run(vec![0x98, 0x00], |cpu| cpu.register_y = 0x10).register_a, 0x10);
    assert_eq!(run(vec![0xba, 0x00], |_| {}).register_x, 0xFD);
    let cpu = run(vec![0x9a, 0x00], |cpu| cpu.register_x = 0x75);
    assert_eq!((cpu.stack_pointer, cpu.status), (0x75, 0));
    assert_eq!(run(vec![0xea, 0x00], |_| {}).program_counter, 0x8001);
}

#[test]
fn test_undocumented_instructions() {
    let cpu = run(vec![0xa7, 0x10, 0x00], |cpu| cpu.mem_write(0x10, 0x91));
    assert_eq!((cpu.register_a, cpu.register_x, cpu.status), (0x91, 0x91, FLAG_NEGATIVE));
    let mut cpu = run(vec![0x87, 0x10, 0x00], |cpu| {
        cpu.register_a = 0b1100;
        cpu.register_x = 0b1010;
    });
    assert_eq!(cpu.mem_read(0x10), 0b1000);
    let mut cpu = run(vec![0xc7, 0x10, 0x00], |cpu| {
        cpu.mem_write(0x10, 0x06);
        cpu.register_a = 0x05;
    });
    assert_eq!((cpu.mem_read(0x10), cpu.status), (0x05, FLAG_ZERO | FLAG_CARRY));
    let mut cpu = run(vec![0xe7, 0x10, 0x00], |cpu| {
        cpu.mem_write(0x10, 0x01);
        cpu.register_a = 0x05;
        cpu.status = FLAG_CARRY;
    });
    assert_eq!((cpu.mem_read(0x10), cpu.register_a), (0x02, 0x03));
    let mut cpu = run(vec![0x07, 0x10, 0x00], |cpu| {
        cpu.mem_write(0x10, 0x81);
        cpu.register_a = 0x01;
    });
    assert_eq!((cpu.mem_read(0x10), cpu.register_a, cpu.status), (0x02, 0x03, FLAG_CARRY));
    let mut cpu = run(vec![0x27, 0x10, 0x00], |cpu| {
        cpu.mem_write(0x10, 0x41);
        cpu.register_a = 0x83;
        cpu.status = FLAG_CARRY;
    });
    assert_eq!((cpu.mem_read(0x10), cpu.register_a), (0x83, 0x83));
    let mut cpu = run(vec![0x47, 0x10, 0x00], |cpu| {
        cpu.mem_write(0x10, 0x03);
        cpu.register_a = 0x03;
    });
    assert_eq!((cpu.mem_read(0x10), cpu.register_a, cpu.status), (0x01, 0x02, FLAG_CARRY));
    let mut cpu = run(vec![0x67, 0x10, 0x00], |cpu| {
        cpu.mem_write(0x10, 0x03);
        cpu.register_a = 0x10;
    });
    // ROR gives 1 with carry set, ADC adds 1 + 1
    assert_eq!((cpu.mem_read(0x10), cpu.register_a), (0x01, 0x12));
    let cpu = run(vec![0x8b, 0x0F, 0x00], |cpu| cpu.register_x = 0x3C);
    assert_eq!(cpu.register_a, 0x0C);
    let mut cpu = run(vec![0x9e, 0x00, 0x03, 0x00], |cpu| {
        cpu.register_x = 0xFF;
        cpu.register_y = 0x10;
    });
    assert_eq!(cpu.mem_read(0x0310), 0x04);
    let mut cpu = run(vec![0x9c, 0x00, 0x03, 0x00], |cpu| {
        cpu.register_y = 0x01;
        cpu.register_x = 0x10;
    });
    assert_eq!(cpu.mem_read(0x0310), 0x02);
    // the undocumented no-operations skip their operands
    let cpu = run(vec![0x1a, 0x80, 0x12, 0x04, 0x12, 0x0c, 0x12, 0x34, 0x00], |_| {});
    assert_eq!(cpu.program_counter, 0x8008);
}

#[test]
fn test_brk_and_interrupts() {
    let mut cpu = CPU::new(bus_with(&[0xea, 0xea]));
    cpu.reset();
    assert_eq!(cpu.status, FLAG_INTERRUPT | FLAG_BREAK2);
    assert_eq!(cpu.stack_pointer, 0xFD);
    cpu.program_counter = 0x8010;
    cpu.status = FLAG_CARRY;
    cpu.brk(&AddressingMode::Implied);
    assert_eq!(cpu.program_counter, 0xA000);
    assert_eq!(cpu.status, FLAG_CARRY | FLAG_BREAK);
    assert_eq!(cpu.mem_read(0x01FD), 0x80);
    assert_eq!(cpu.mem_read(0x01FC), 0x11);
    assert_eq!(cpu.mem_read(0x01FB), FLAG_CARRY);
    // with the break flag set BRK does nothing
    let before = (cpu.program_counter, cpu.stack_pointer);
    cpu.brk(&AddressingMode::Implied);
    assert_eq!((cpu.program_counter, cpu.stack_pointer), before);

    let mut cpu = CPU::new(bus_with(&[0xea]));
    cpu.reset();
    cpu.call_irq();
    // masked
    assert_eq!(cpu.program_counter, 0x8000);
    cpu.status = 0;
    cpu.call_irq();
    assert_eq!(cpu.program_counter, 0xA000);
    assert_eq!(cpu.mem_read(0x01FD), 0x80);
    assert_eq!(cpu.mem_read(0x01FC), 0x00);

    let mut cpu = CPU::new(bus_with(&[0xea]));
    cpu.reset();
    cpu.status = FLAG_BREAK | FLAG_CARRY;
    cpu.interrupt_nmi();
    assert_eq!(cpu.program_counter, 0x9000);
    assert_eq!(cpu.status, FLAG_BREAK | FLAG_CARRY | FLAG_INTERRUPT);
    assert_eq!(cpu.mem_read(0x01FB), FLAG_CARRY | FLAG_BREAK2);
    assert_eq!(cpu.bus.cycles, 2);
}

#[test]
fn test_step_answers_interrupts_first() {
    let mut cpu = CPU::new(bus_with(&[0xea, 0xea]));
    cpu.reset();
    cpu.bus.ppu.nmi_interrupt = Some(1);
    let (op, _) = cpu.fetch();
    // the interrupt routine at $9000 begins with a BRK
    assert_eq!(op.unwrap().instruction, Instruction::Brk);
    assert_eq!(cpu.program_counter, 0x9001);
    assert_eq!(cpu.bus.ppu.nmi_interrupt, None);
    assert_eq!(cpu.stack_pointer, 0xFA);
    assert_eq!(cpu.bus.cycles, 2);

    let mut cpu = CPU::new(bus_with(&[0xea, 0xea]));
    cpu.reset();
    cpu.status = 0;
    cpu.bus.apu.status.insert(0x40);
    cpu.fetch();
    assert_eq!(cpu.program_counter, 0xA001);
}

#[test]
fn test_cycles() {
    let mut cpu = CPU::new(bus_with(&[0xa9, 0x01, 0xbd, 0xff, 0x06, 0xbd, 0x00, 0x06, 0x9d, 0xff, 0x06, 0xf0, 0x02]));
    cpu.reset();
    cpu.register_x = 1;
    step(&mut cpu);
    assert_eq!(cpu.bus.cycles, 2);
    // LDA $06FF,X crosses a page
    step(&mut cpu);
    assert_eq!(cpu.bus.cycles, 2 + 5);
    step(&mut cpu);
    assert_eq!(cpu.bus.cycles, 7 + 4);
    // a store pays nothing for the page
    step(&mut cpu);
    assert_eq!(cpu.bus.cycles, 11 + 5);
    assert_eq!(cpu.add_cycles, 0);
    // a taken branch
    step(&mut cpu);
    assert_eq!(cpu.bus.cycles, 16 + 3);
    assert_eq!(cpu.program_counter, 0x800F);
    // the picture unit runs three times as fast
    assert_eq!(cpu.bus.ppu.cycles, 19 * 3);
}

#[test]
fn test_unknown_opcode_is_skipped() {
    let mut cpu = CPU::new(bus_with(&[0x02, 0xe8]));
    cpu.reset();
    assert!(step(&mut cpu).is_none());
    assert_eq!(cpu.program_counter, 0x8001);
    assert_eq!(cpu.bus.cycles, 0);
    step(&mut cpu);
    assert_eq!(cpu.register_x, 1);
}

#[test]
fn test_mem_read_u16_page_quirk() {
    let mut cpu = CPU::new(bus_with(&[]));
    cpu.mem_write(0x00FF, 0x34);
    cpu.mem_write(0x0000, 0x12);
    cpu.mem_write(0x0100, 0x56);
    assert_eq!(cpu.mem_read_u16(0x00FF), 0x1234);
    cpu.mem_write(0x02FF, 0x78);
    cpu.mem_write(0x0200, 0x9A);
    assert_eq!(cpu.mem_read_u16(0x02FF), 0x9A78);
    cpu.mem_write(0x03FF, 0x11);
    cpu.mem_write(0x0400, 0x22);
    assert_eq!(cpu.mem_read_u16(0x03FF), 0x2211);
    cpu.mem_write_u16(0x0010, 0xBEEF);
    assert_eq!(cpu.mem_read(0x0010), 0xEF);
    assert_eq!(cpu.mem_read(0x0011), 0xBE);
    assert_eq!(cpu.mem_read_u16(0xFFFC), 0x8000);
}

#[test]
fn test_decode_table() {
    let lda = decode(0xA9).unwrap();
    assert_eq!(lda.instruction, Instruction::Lda);
    assert_eq!(lda.addressing_mode, AddressingMode::Immediate);
    assert_eq!((lda.bytes, lda.cycles), (2, 2));
    assert_eq!(lda.cycle_calc_mode, CycleCalcMode::Fixed);
    assert!(is_official(&lda));
    assert_eq!(letters(lda.instruction), ['L', 'D', 'A']);
    let jmp = decode(0x6C).unwrap();
    assert_eq!((jmp.instruction, jmp.addressing_mode), (Instruction::Jmp, AddressingMode::Indirect));
    assert_eq!((jmp.bytes, jmp.cycles), (3, 5));
    let ora = decode(0x11).unwrap();
    assert_eq!(ora.cycle_calc_mode, CycleCalcMode::Page);
    let sta = decode(0x91).unwrap();
    assert_eq!(sta.cycle_calc_mode, CycleCalcMode::Fixed);
    assert_eq!(sta.cycles, 6);
    let bne = decode(0xD0).unwrap();
    assert_eq!(bne.cycle_calc_mode, CycleCalcMode::Branch);
    let brk = decode(0x00).unwrap();
    assert_eq!((brk.instruction, brk.bytes, brk.cycles), (Instruction::Brk, 1, 7));
    assert!(!is_official(&decode(0xA7).unwrap()));
    assert!(!is_official(&decode(0xEB).unwrap()));
    assert!(!is_official(&decode(0x1A).unwrap()));
    assert!(is_official(&decode(0xEA).unwrap()));
    assert_eq!(letters(decode(0xC7).unwrap().instruction), ['D', 'C', 'P']);
    let known = (0..=255u8).filter(|code| decode(*code).is_some()).count();
    assert_eq!(known, 234);
    let official = (0..=255u8).filter_map(decode).filter(|op| is_official(op)).count();
    assert_eq!(official, 151);
    for code in [0x02u8, 0x12, 0x0B, 0x4B, 0x6B, 0xAB, 0xCB, 0x93, 0x9B, 0x9F, 0xBB, 0xFF - 0x0D] {
        assert!(decode(code).is_none(), "{:02X}", code);
    }
    for code in 0..=255u8 {
        if let Some(op) = decode(code) {
            assert_eq!(op.code, code);
            assert!((2..=8).contains(&op.cycles));
        }
    }
}

#[test]
fn test_call_moves_the_program_counter_on() {
    let mut cpu = CPU::new(bus_with(&[0xa9, 0x07, 0xad, 0x00, 0x80]));
    cpu.reset();
    cpu.program_counter = 0x8001;
    call(&mut cpu, &decode(0xA9).unwrap());
    assert_eq!((cpu.register_a, cpu.program_counter), (0x07, 0x8002));
    cpu.program_counter = 0x8003;
    call(&mut cpu, &decode(0xAD).unwrap());
    assert_eq!((cpu.register_a, cpu.program_counter), (0xA9, 0x8005));
}

#[test]
fn test_opcode_entry() {
    let op = OpCode::new(0xA9, "LDA", 2, 2, CycleCalcMode::Fixed, AddressingMode::Immediate);
    assert_eq!(op.code, 0xA9);
    assert_eq!(op.mnemonic, "LDA");
    assert_eq!((op.bytes, op.cycles), (2, 2));
    assert_eq!(op.cycle_calc_mode, CycleCalcMode::Fixed);
    assert_eq!(op.addressing_mode, AddressingMode::Immediate);
    let entry = nes_emu::types::OpCode::new(0x00, "BRK", 1, 7, nes_emu::types::AddressingMode::Implicit);
    assert_eq!((entry.code, entry.bytes, entry.cycles), (0, 1, 7));
    assert_eq!(entry.mnemonic, "BRK");
    assert_eq!(entry.addressing_mode, nes_emu::types::AddressingMode::Implicit);
}

#[test]
fn test_bus_memory_map() {
    let mut bus = bus_with(&[0x11, 0x22]);
    bus.write(0x0001, 0xAA);
    assert_eq!(bus.read(0x0001), 0xAA);
    assert_eq!(bus.read(0x0801), 0xAA);
    assert_eq!(bus.read(0x1801), 0xAA);
    bus.write(0x1FFF, 0xBB);
    assert_eq!(bus.cpu_vram[0x7FF], 0xBB);
    assert_eq!(bus.read(0x8000), 0x11);
    assert_eq!(bus.read(0x8001), 0x22);
    assert_eq!(bus.read(0x4017), 0);
    assert_eq!(bus.read(0x5000), 0);
    assert_eq!(bus.read(0x2003), 0);
    assert!(!bus.fault);
    // mapper 0 has no program RAM: it reads as 0
    bus.write(0x6000, 0x12);
    assert_eq!(bus.read(0x6000), 0);
    assert!(bus.prg_ram_written);
    assert!(!bus.fault);
}

#[test]
fn test_bus_picture_unit_registers() {
    let mut bus = bus_with(&[]);
    bus.write(0x2006, 0x20);
    bus.write(0x2006, 0x10);
    bus.write(0x2007, 0x99);
    assert_eq!(bus.ppu.vram[0x10], 0x99);
    // the registers repeat every 8 bytes
    bus.write(0x3FF6, 0x20);
    bus.write(0x200E, 0x10);
    assert_eq!(bus.read(0x2007), 0);
    assert_eq!(bus.read(0x3FFF), 0x99);
    bus.write(0x2000, 0x0B);
    assert_eq!(bus.read(0x2000), 0x8B);
    bus.write(0x2001, 0x1E);
    assert_eq!(bus.read(0x2001), 0x1E);
    bus.write(0x2002, 0xE0);
    assert_eq!(bus.read(0x2002), 0xE0);
    bus.write(0x2003, 0x05);
    bus.write(0x2004, 0x77);
    bus.write(0x2003, 0x05);
    assert_eq!(bus.read(0x2004), 0x77);
    bus.write(0x2005, 0x01);
    assert_eq!(bus.ppu.scroll.scroll_x, 0x01);
    assert!(!bus.fault);
    // the range $3000 to $3EFF cannot be read through the data register
    bus.write(0x2006, 0x30);
    bus.write(0x2006, 0x00);
    assert_eq!(bus.read(0x2007), 0);
    assert!(bus.fault);
}

#[test]
fn test_bus_audio_unit_and_controller() {
    let mut bus = bus_with(&[]);
    bus.write(0x4002, 0x54);
    assert_eq!(bus.apu.ch1_events, vec![SquareEvent::ChangeFrequency(0x54)]);
    bus.write(0x4006, 0x55);
    assert_eq!(bus.apu.ch2_events, vec![SquareEvent::ChangeFrequency(0x55)]);
    bus.write(0x400A, 0x01);
    bus.write(0x400E, 0x01);
    bus.write(0x4011, 0x01);
    bus.write(0x4009, 0xFF);
    bus.write(0x400D, 0xFF);
    assert_eq!(bus.apu.ch3_events.len(), 1);
    assert_eq!(bus.apu.ch4_events.len(), 1);
    assert_eq!(bus.apu.dmc_events.len(), 1);
    bus.write(0x4015, 0x1F);
    assert_eq!(bus.apu.status.bits, 0x1F);
    bus.write(0x4017, 0x80);
    assert_eq!(bus.apu.frame_counter.mode(), 5);
    assert_eq!(bus.read(0x4015), 0);
    bus.apu.status.insert(0x40);
    assert!(bus.poll_apu_irq());
    assert_eq!(bus.read(0x4015), 0x40);
    assert!(!bus.poll_apu_irq());

    bus.joypad1.set_button_pressed_status(JoypadButton::BUTTON_B, true);
    bus.write(0x4016, 1);
    bus.write(0x4016, 0);
    assert_eq!(bus.read(0x4016), 0);
    assert_eq!(bus.read(0x4016), 1);
}

#[test]
fn test_bus_sprite_transfer() {
    let mut bus = bus_with(&[]);
    for i in 0..256u16 {
        bus.write(0x0300 + i, (i as u8) ^ 0x5A);
    }
    bus.write(0x4014, 0x03);
    for i in 0..256usize {
        assert_eq!(bus.ppu.oam_data[i], (i as u8) ^ 0x5A);
    }
    // 513 dots: one scanline and 172 dots
    assert_eq!((bus.ppu.scanline, bus.ppu.cycles), (1, 172));
}

#[test]
fn test_bus_tick_and_nmi() {
    let mut bus = bus_with(&[]);
    assert!(!bus.tick(85));
    assert_eq!(bus.cycles, 85);
    assert_eq!(bus.ppu.cycles, 255);
    assert_eq!(bus.apu.cycles, 85);
    bus.ppu.ctrl.update(0x80);
    let mut frames = 0;
    for _ in 0..20_000 {
        if bus.tick(2) {
            frames += 1;
            assert_eq!(bus.poll_nmi_status(), Some(1));
            assert_eq!(bus.poll_nmi_status(), None);
        }
    }
    assert_eq!(frames, 1);
}

#[test]
fn test_bus_faults_on_unmapped_cartridge_memory() {
    let mut rom = Rom::empty();
    rom.mapper = 2;
    rom.prg_rom = vec![7; 0x8000];
    let ppu = NesPPU::new(Vec::new(), Mirroring::VERTICAL);
    let mut bus = Bus::new(NesAPU::new(), ppu, create_mapper(rom));
    assert_eq!(bus.read(0x8000), 7);
    bus.write(0x8000, 0x05);
    assert!(matches!(&bus.mapper, AnyMapper::M2(mapper) if mapper.bank_select == 5));
    assert!(!bus.fault);
    assert_eq!(bus.read(0x8000), 0);
    assert!(bus.fault);
    assert_eq!(bus.read(0xC000), 7);
    assert!(bus.mapper.can_read_prg_rom(0xC000));
}
