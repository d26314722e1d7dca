//! The instruction table: which instruction each opcode stands for, how
//! it finds its operand and how long it takes; and the dispatch of a
//! decoded instruction to the processor.
use vstd::prelude::*;
use crate::cpu::{add16, add8, doubled, sub8, AddressingMode, CpuView, CycleCalcMode, CPU};
use crate::cpu::{FLAG_CARRY, FLAG_DECIMAL, FLAG_INTERRRUPT, FLAG_NEGATIVE, FLAG_OVERFLOW, FLAG_ZERO};
use crate::mapper::AnyMapper;

verus! {

/// The instructions of the processor: the documented ones, then those of
/// the undocumented ones that the processor of this emulator performs.
#[derive(Debug, Clone, Copy, PartialEq, Eq, Structural)]
pub enum Instruction {
    /// Add with carry.
    Adc,
    /// And with A.
    And,
    /// Shift left.
    Asl,
    /// Branch on carry clear.
    Bcc,
    /// Branch on carry set.
    Bcs,
    /// Branch on zero.
    Beq,
    /// Test bits.
    Bit,
    /// Branch on minus.
    Bmi,
    /// Branch on not zero.
    Bne,
    /// Branch on plus.
    Bpl,
    /// Force an interrupt.
    Brk,
    /// Branch on overflow clear.
    Bvc,
    /// Branch on overflow set.
    Bvs,
    /// Clear carry.
    Clc,
    /// Clear decimal.
    Cld,
    /// Clear interrupt disable.
    Cli,
    /// Clear overflow.
    Clv,
    /// Compare with A.
    Cmp,
    /// Compare with X.
    Cpx,
    /// Compare with Y.
    Cpy,
    /// Decrement memory.
    Dec,
    /// Decrement X.
    Dex,
    /// Decrement Y.
    Dey,
    /// Exclusive-or with A.
    Eor,
    /// Increment memory.
    Inc,
    /// Increment X.
    Inx,
    /// Increment Y.
    Iny,
    /// Jump.
    Jmp,
    /// Jump to subroutine.
    Jsr,
    /// Load A.
    Lda,
    /// Load X.
    Ldx,
    /// Load Y.
    Ldy,
    /// Shift right.
    Lsr,
    /// No operation.
    Nop,
    /// Or with A.
    Ora,
    /// Push A.
    Pha,
    /// Push status.
    Php,
    /// Pull A.
    Pla,
    /// Pull status.
    Plp,
    /// Rotate left.
    Rol,
    /// Rotate right.
    Ror,
    /// Return from interrupt.
    Rti,
    /// Return from subroutine.
    Rts,
    /// Subtract with borrow.
    Sbc,
    /// Set carry.
    Sec,
    /// Set decimal.
    Sed,
    /// Set interrupt disable.
    Sei,
    /// Store A.
    Sta,
    /// Store X.
    Stx,
    /// Store Y.
    Sty,
    /// Transfer A to X.
    Tax,
    /// Transfer A to Y.
    Tay,
    /// Transfer stack pointer to X.
    Tsx,
    /// Transfer X to A.
    Txa,
    /// Transfer X to stack pointer.
    Txs,
    /// Transfer Y to A.
    Tya,
    /// Load A and X.
    Lax,
    /// Store A and X.
    Sax,
    /// Decrement memory, then compare with A.
    Dcp,
    /// Increment memory, then subtract from A.
    Isb,
    /// Shift left, then or with A.
    Slo,
    /// Rotate left, then and with A.
    Rla,
    /// Shift right, then exclusive-or with A.
    Sre,
    /// Rotate right, then add to A.
    Rra,
    /// Store X and the high byte of the address.
    Shx,
    /// Store Y and the high byte of the address.
    Shy,
    /// Transfer X to A, then and with A.
    Ane,
}

/// A decoded opcode.
#[derive(Debug, Clone, Copy, PartialEq, Eq, Structural)]
pub struct Decoded {
    pub code: u8,
    pub instruction: Instruction,
    pub addressing_mode: AddressingMode,
    /// The instruction's length in bytes, opcode included.
    pub bytes: u16,
    /// The cycles that the instruction takes at least.
    pub cycles: u8,
    pub cycle_calc_mode: CycleCalcMode,
}

/// The bytes that follow the opcode in an addressing mode.
pub open spec fn operand_bytes(mode: AddressingMode) -> int {
    match mode {
        AddressingMode::Accumulator | AddressingMode::Implied | AddressingMode::NoneAddressing => 0,
        AddressingMode::Absolute
        | AddressingMode::Absolute_X
        | AddressingMode::Absolute_Y
        | AddressingMode::Indirect => 2,
        _ => 1,
    }
}

impl Instruction {
    /// True for the instructions that read their operand and take one more
    /// cycle when an indexed address crosses a page.
    pub open spec fn pays_for_page_cross(self) -> bool {
        match self {
            Instruction::Adc
            | Instruction::And
            | Instruction::Cmp
            | Instruction::Eor
            | Instruction::Lda
            | Instruction::Ldx
            | Instruction::Ldy
            | Instruction::Ora
            | Instruction::Sbc
            | Instruction::Lax
            | Instruction::Nop => true,
            _ => false,
        }
    }

    /// True for the instructions that work on registers and the stack
    /// alone.
    pub open spec fn is_implied(self) -> bool {
        match self {
            Instruction::Brk
            | Instruction::Clc
            | Instruction::Cld
            | Instruction::Cli
            | Instruction::Clv
            | Instruction::Dex
            | Instruction::Dey
            | Instruction::Inx
            | Instruction::Iny
            | Instruction::Nop
            | Instruction::Pha
            | Instruction::Php
            | Instruction::Pla
            | Instruction::Plp
            | Instruction::Rti
            | Instruction::Rts
            | Instruction::Sec
            | Instruction::Sed
            | Instruction::Sei
            | Instruction::Tax
            | Instruction::Tay
            | Instruction::Tsx
            | Instruction::Txa
            | Instruction::Txs
            | Instruction::Tya => true,
            _ => false,
        }
    }
}

/// How the cycles of an instruction depend on its operand's address.
pub open spec fn spec_cycle_calc_mode(
    instruction: Instruction,
    mode: AddressingMode,
) -> CycleCalcMode {
    if mode is Relative {
        CycleCalcMode::Branch
    } else if instruction.pays_for_page_cross() && (mode is Absolute_X || mode is Absolute_Y
        || mode is Indirect_Y) {
        CycleCalcMode::Page
    } else {
        CycleCalcMode::Fixed
    }
}

/// The table entry of an opcode.
pub open spec fn spec_entry(
    code: u8,
    instruction: Instruction,
    mode: AddressingMode,
    cycles: u8,
) -> Decoded {
    Decoded {
        code,
        instruction,
        addressing_mode: mode,
        bytes: (1 + operand_bytes(mode)) as u16,
        cycles,
        cycle_calc_mode: spec_cycle_calc_mode(instruction, mode),
    }
}

fn entry(code: u8, instruction: Instruction, mode: AddressingMode, cycles: u8) -> (decoded: Decoded)
    ensures
        decoded == spec_entry(code, instruction, mode, cycles),
{
    let bytes: u16 = match mode {
        AddressingMode::Accumulator | AddressingMode::Implied | AddressingMode::NoneAddressing => 1,
        AddressingMode::Absolute
        | AddressingMode::Absolute_X
        | AddressingMode::Absolute_Y
        | AddressingMode::Indirect => 3,
        _ => 2,
    };
    let pays = match instruction {
        Instruction::Adc
        | Instruction::And
        | Instruction::Cmp
        | Instruction::Eor
        | Instruction::Lda
        | Instruction::Ldx
        | Instruction::Ldy
        | Instruction::Ora
        | Instruction::Sbc
        | Instruction::Lax
        | Instruction::Nop => true,
        _ => false,
    };
    let indexed = match mode {
        AddressingMode::Absolute_X | AddressingMode::Absolute_Y | AddressingMode::Indirect_Y => true,
        _ => false,
    };
    let cycle_calc_mode = match mode {
        AddressingMode::Relative => CycleCalcMode::Branch,
        _ => if pays && indexed {
            CycleCalcMode::Page
        } else {
            CycleCalcMode::Fixed
        },
    };
    Decoded { code, instruction, addressing_mode: mode, bytes, cycles, cycle_calc_mode }
}

impl Decoded {
    /// What holds of every entry of the table: the length fits the
    /// addressing mode, no instruction takes more than 8 cycles, and the
    /// addressing mode is one that the instruction can work with.
    pub open spec fn wf(self) -> bool {
        &&& self.bytes == 1 + operand_bytes(self.addressing_mode)
        &&& 2 <= self.cycles <= 8
        &&& self.cycle_calc_mode == spec_cycle_calc_mode(self.instruction, self.addressing_mode)
        &&& !(self.addressing_mode is NoneAddressing)
        &&& self.instruction.is_implied() || (self.instruction.is_shift()
            && self.addressing_mode is Accumulator) || self.addressing_mode.has_address()
    }
}

/// The row of the instruction table for the opcodes $00 to $0F.
pub open spec fn spec_row_0(code: u8) -> Option<Decoded> {
    match code {
        0x00 => Some(spec_entry(code, Instruction::Brk, AddressingMode::Implied, 7)),
        0x01 => Some(spec_entry(code, Instruction::Ora, AddressingMode::Indirect_X, 6)),
        0x03 => Some(spec_entry(code, Instruction::Slo, AddressingMode::Indirect_X, 8)),
        0x04 => Some(spec_entry(code, Instruction::Nop, AddressingMode::ZeroPage, 3)),
        0x05 => Some(spec_entry(code, Instruction::Ora, AddressingMode::ZeroPage, 3)),
        0x06 => Some(spec_entry(code, Instruction::Asl, AddressingMode::ZeroPage, 5)),
        0x07 => Some(spec_entry(code, Instruction::Slo, AddressingMode::ZeroPage, 5)),
        0x08 => Some(spec_entry(code, Instruction::Php, AddressingMode::Implied, 3)),
        0x09 => Some(spec_entry(code, Instruction::Ora, AddressingMode::Immediate, 2)),
        0x0A => Some(spec_entry(code, Instruction::Asl, AddressingMode::Accumulator, 2)),
        0x0C => Some(spec_entry(code, Instruction::Nop, AddressingMode::Absolute, 4)),
        0x0D => Some(spec_entry(code, Instruction::Ora, AddressingMode::Absolute, 4)),
        0x0E => Some(spec_entry(code, Instruction::Asl, AddressingMode::Absolute, 6)),
        0x0F => Some(spec_entry(code, Instruction::Slo, AddressingMode::Absolute, 6)),
        _ => None,
    }
}

fn row_0(code: u8) -> (decoded: Option<Decoded>)
    ensures
        decoded == spec_row_0(code),
        decoded matches Some(op) ==> op.wf() && op.code == code,
{
    match code {
        0x00 => Some(entry(code, Instruction::Brk, AddressingMode::Implied, 7)),
        0x01 => Some(entry(code, Instruction::Ora, AddressingMode::Indirect_X, 6)),
        0x03 => Some(entry(code, Instruction::Slo, AddressingMode::Indirect_X, 8)),
        0x04 => Some(entry(code, Instruction::Nop, AddressingMode::ZeroPage, 3)),
        0x05 => Some(entry(code, Instruction::Ora, AddressingMode::ZeroPage, 3)),
        0x06 => Some(entry(code, Instruction::Asl, AddressingMode::ZeroPage, 5)),
        0x07 => Some(entry(code, Instruction::Slo, AddressingMode::ZeroPage, 5)),
        0x08 => Some(entry(code, Instruction::Php, AddressingMode::Implied, 3)),
        0x09 => Some(entry(code, Instruction::Ora, AddressingMode::Immediate, 2)),
        0x0A => Some(entry(code, Instruction::Asl, AddressingMode::Accumulator, 2)),
        0x0C => Some(entry(code, Instruction::Nop, AddressingMode::Absolute, 4)),
        0x0D => Some(entry(code, Instruction::Ora, AddressingMode::Absolute, 4)),
        0x0E => Some(entry(code, Instruction::Asl, AddressingMode::Absolute, 6)),
        0x0F => Some(entry(code, Instruction::Slo, AddressingMode::Absolute, 6)),
        _ => None,
    }
}

/// The row of the instruction table for the opcodes $10 to $1F.
pub open spec fn spec_row_1(code: u8) -> Option<Decoded> {
    match code {
        0x10 => Some(spec_entry(code, Instruction::Bpl, AddressingMode::Relative, 2)),
        0x11 => Some(spec_entry(code, Instruction::Ora, AddressingMode::Indirect_Y, 5)),
        0x13 => Some(spec_entry(code, Instruction::Slo, AddressingMode::Indirect_Y, 8)),
        0x14 => Some(spec_entry(code, Instruction::Nop, AddressingMode::ZeroPage_X, 4)),
        0x15 => Some(spec_entry(code, Instruction::Ora, AddressingMode::ZeroPage_X, 4)),
        0x16 => Some(spec_entry(code, Instruction::Asl, AddressingMode::ZeroPage_X, 6)),
        0x17 => Some(spec_entry(code, Instruction::Slo, AddressingMode::ZeroPage_X, 6)),
        0x18 => Some(spec_entry(code, Instruction::Clc, AddressingMode::Implied, 2)),
        0x19 => Some(spec_entry(code, Instruction::Ora, AddressingMode::Absolute_Y, 4)),
        0x1A => Some(spec_entry(code, Instruction::Nop, AddressingMode::Implied, 2)),
        0x1B => Some(spec_entry(code, Instruction::Slo, AddressingMode::Absolute_Y, 7)),
        0x1C => Some(spec_entry(code, Instruction::Nop, AddressingMode::Absolute_X, 4)),
        0x1D => Some(spec_entry(code, Instruction::Ora, AddressingMode::Absolute_X, 4)),
        0x1E => Some(spec_entry(code, Instruction::Asl, AddressingMode::Absolute_X, 7)),
        0x1F => Some(spec_entry(code, Instruction::Slo, AddressingMode::Absolute_X, 7)),
        _ => None,
    }
}

fn row_1(code: u8) -> (decoded: Option<Decoded>)
    ensures
        decoded == spec_row_1(code),
        decoded matches Some(op) ==> op.wf() && op.code == code,
{
    match code {
        0x10 => Some(entry(code, Instruction::Bpl, AddressingMode::Relative, 2)),
        0x11 => Some(entry(code, Instruction::Ora, AddressingMode::Indirect_Y, 5)),
        0x13 => Some(entry(code, Instruction::Slo, AddressingMode::Indirect_Y, 8)),
        0x14 => Some(entry(code, Instruction::Nop, AddressingMode::ZeroPage_X, 4)),
        0x15 => Some(entry(code, Instruction::Ora, AddressingMode::ZeroPage_X, 4)),
        0x16 => Some(entry(code, Instruction::Asl, AddressingMode::ZeroPage_X, 6)),
        0x17 => Some(entry(code, Instruction::Slo, AddressingMode::ZeroPage_X, 6)),
        0x18 => Some(entry(code, Instruction::Clc, AddressingMode::Implied, 2)),
        0x19 => Some(entry(code, Instruction::Ora, AddressingMode::Absolute_Y, 4)),
        0x1A => Some(entry(code, Instruction::Nop, AddressingMode::Implied, 2)),
        0x1B => Some(entry(code, Instruction::Slo, AddressingMode::Absolute_Y, 7)),
        0x1C => Some(entry(code, Instruction::Nop, AddressingMode::Absolute_X, 4)),
        0x1D => Some(entry(code, Instruction::Ora, AddressingMode::Absolute_X, 4)),
        0x1E => Some(entry(code, Instruction::Asl, AddressingMode::Absolute_X, 7)),
        0x1F => Some(entry(code, Instruction::Slo, AddressingMode::Absolute_X, 7)),
        _ => None,
    }
}

/// The row of the instruction table for the opcodes $20 to $2F.
pub open spec fn spec_row_2(code: u8) -> Option<Decoded> {
    match code {
        0x20 => Some(spec_entry(code, Instruction::Jsr, AddressingMode::Absolute, 6)),
        0x21 => Some(spec_entry(code, Instruction::And, AddressingMode::Indirect_X, 6)),
        0x23 => Some(spec_entry(code, Instruction::Rla, AddressingMode::Indirect_X, 8)),
        0x24 => Some(spec_entry(code, Instruction::Bit, AddressingMode::ZeroPage, 3)),
        0x25 => Some(spec_entry(code, Instruction::And, AddressingMode::ZeroPage, 3)),
        0x26 => Some(spec_entry(code, Instruction::Rol, AddressingMode::ZeroPage, 5)),
        0x27 => Some(spec_entry(code, Instruction::Rla, AddressingMode::ZeroPage, 5)),
        0x28 => Some(spec_entry(code, Instruction::Plp, AddressingMode::Implied, 4)),
        0x29 => Some(spec_entry(code, Instruction::And, AddressingMode::Immediate, 2)),
        0x2A => Some(spec_entry(code, Instruction::Rol, AddressingMode::Accumulator, 2)),
        0x2C => Some(spec_entry(code, Instruction::Bit, AddressingMode::Absolute, 4)),
        0x2D => Some(spec_entry(code, Instruction::And, AddressingMode::Absolute, 4)),
        0x2E => Some(spec_entry(code, Instruction::Rol, AddressingMode::Absolute, 6)),
        0x2F => Some(spec_entry(code, Instruction::Rla, AddressingMode::Absolute, 6)),
        _ => None,
    }
}

fn row_2(code: u8) -> (decoded: Option<Decoded>)
    ensures
        decoded == spec_row_2(code),
        decoded matches Some(op) ==> op.wf() && op.code == code,
{
    match code {
        0x20 => Some(entry(code, Instruction::Jsr, AddressingMode::Absolute, 6)),
        0x21 => Some(entry(code, Instruction::And, AddressingMode::Indirect_X, 6)),
        0x23 => Some(entry(code, Instruction::Rla, AddressingMode::Indirect_X, 8)),
        0x24 => Some(entry(code, Instruction::Bit, AddressingMode::ZeroPage, 3)),
        0x25 => Some(entry(code, Instruction::And, AddressingMode::ZeroPage, 3)),
        0x26 => Some(entry(code, Instruction::Rol, AddressingMode::ZeroPage, 5)),
        0x27 => Some(entry(code, Instruction::Rla, AddressingMode::ZeroPage, 5)),
        0x28 => Some(entry(code, Instruction::Plp, AddressingMode::Implied, 4)),
        0x29 => Some(entry(code, Instruction::And, AddressingMode::Immediate, 2)),
        0x2A => Some(entry(code, Instruction::Rol, AddressingMode::Accumulator, 2)),
        0x2C => Some(entry(code, Instruction::Bit, AddressingMode::Absolute, 4)),
        0x2D => Some(entry(code, Instruction::And, AddressingMode::Absolute, 4)),
        0x2E => Some(entry(code, Instruction::Rol, AddressingMode::Absolute, 6)),
        0x2F => Some(entry(code, Instruction::Rla, AddressingMode::Absolute, 6)),
        _ => None,
    }
}

/// The row of the instruction table for the opcodes $30 to $3F.
pub open spec fn spec_row_3(code: u8) -> Option<Decoded> {
    match code {
        0x30 => Some(spec_entry(code, Instruction::Bmi, AddressingMode::Relative, 2)),
        0x31 => Some(spec_entry(code, Instruction::And, AddressingMode::Indirect_Y, 5)),
        0x33 => Some(spec_entry(code, Instruction::Rla, AddressingMode::Indirect_Y, 8)),
        0x34 => Some(spec_entry(code, Instruction::Nop, AddressingMode::ZeroPage_X, 4)),
        0x35 => Some(spec_entry(code, Instruction::And, AddressingMode::ZeroPage_X, 4)),
        0x36 => Some(spec_entry(code, Instruction::Rol, AddressingMode::ZeroPage_X, 6)),
        0x37 => Some(spec_entry(code, Instruction::Rla, AddressingMode::ZeroPage_X, 6)),
        0x38 => Some(spec_entry(code, Instruction::Sec, AddressingMode::Implied, 2)),
        0x39 => Some(spec_entry(code, Instruction::And, AddressingMode::Absolute_Y, 4)),
        0x3A => Some(spec_entry(code, Instruction::Nop, AddressingMode::Implied, 2)),
        0x3B => Some(spec_entry(code, Instruction::Rla, AddressingMode::Absolute_Y, 7)),
        0x3C => Some(spec_entry(code, Instruction::Nop, AddressingMode::Absolute_X, 4)),
        0x3D => Some(spec_entry(code, Instruction::And, AddressingMode::Absolute_X, 4)),
        0x3E => Some(spec_entry(code, Instruction::Rol, AddressingMode::Absolute_X, 7)),
        0x3F => Some(spec_entry(code, Instruction::Rla, AddressingMode::Absolute_X, 7)),
        _ => None,
    }
}

fn row_3(code: u8) -> (decoded: Option<Decoded>)
    ensures
        decoded == spec_row_3(code),
        decoded matches Some(op) ==> op.wf() && op.code == code,
{
    match code {
        0x30 => Some(entry(code, Instruction::Bmi, AddressingMode::Relative, 2)),
        0x31 => Some(entry(code, Instruction::And, AddressingMode::Indirect_Y, 5)),
        0x33 => Some(entry(code, Instruction::Rla, AddressingMode::Indirect_Y, 8)),
        0x34 => Some(entry(code, Instruction::Nop, AddressingMode::ZeroPage_X, 4)),
        0x35 => Some(entry(code, Instruction::And, AddressingMode::ZeroPage_X, 4)),
        0x36 => Some(entry(code, Instruction::Rol, AddressingMode::ZeroPage_X, 6)),
        0x37 => Some(entry(code, Instruction::Rla, AddressingMode::ZeroPage_X, 6)),
        0x38 => Some(entry(code, Instruction::Sec, AddressingMode::Implied, 2)),
        0x39 => Some(entry(code, Instruction::And, AddressingMode::Absolute_Y, 4)),
        0x3A => Some(entry(code, Instruction::Nop, AddressingMode::Implied, 2)),
        0x3B => Some(entry(code, Instruction::Rla, AddressingMode::Absolute_Y, 7)),
        0x3C => Some(entry(code, Instruction::Nop, AddressingMode::Absolute_X, 4)),
        0x3D => Some(entry(code, Instruction::And, AddressingMode::Absolute_X, 4)),
        0x3E => Some(entry(code, Instruction::Rol, AddressingMode::Absolute_X, 7)),
        0x3F => Some(entry(code, Instruction::Rla, AddressingMode::Absolute_X, 7)),
        _ => None,
    }
}

/// The row of the instruction table for the opcodes $40 to $4F.
pub open spec fn spec_row_4(code: u8) -> Option<Decoded> {
    match code {
        0x40 => Some(spec_entry(code, Instruction::Rti, AddressingMode::Implied, 6)),
        0x41 => Some(spec_entry(code, Instruction::Eor, AddressingMode::Indirect_X, 6)),
        0x43 => Some(spec_entry(code, Instruction::Sre, AddressingMode::Indirect_X, 8)),
        0x44 => Some(spec_entry(code, Instruction::Nop, AddressingMode::ZeroPage, 3)),
        0x45 => Some(spec_entry(code, Instruction::Eor, AddressingMode::ZeroPage, 3)),
        0x46 => Some(spec_entry(code, Instruction::Lsr, AddressingMode::ZeroPage, 5)),
        0x47 => Some(spec_entry(code, Instruction::Sre, AddressingMode::ZeroPage, 5)),
        0x48 => Some(spec_entry(code, Instruction::Pha, AddressingMode::Implied, 3)),
        0x49 => Some(spec_entry(code, Instruction::Eor, AddressingMode::Immediate, 2)),
        0x4A => Some(spec_entry(code, Instruction::Lsr, AddressingMode::Accumulator, 2)),
        0x4C => Some(spec_entry(code, Instruction::Jmp, AddressingMode::Absolute, 3)),
        0x4D => Some(spec_entry(code, Instruction::Eor, AddressingMode::Absolute, 4)),
        0x4E => Some(spec_entry(code, Instruction::Lsr, AddressingMode::Absolute, 6)),
        0x4F => Some(spec_entry(code, Instruction::Sre, AddressingMode::Absolute, 6)),
        _ => None,
    }
}

fn row_4(code: u8) -> (decoded: Option<Decoded>)
    ensures
        decoded == spec_row_4(code),
        decoded matches Some(op) ==> op.wf() && op.code == code,
{
    match code {
        0x40 => Some(entry(code, Instruction::Rti, AddressingMode::Implied, 6)),
        0x41 => Some(entry(code, Instruction::Eor, AddressingMode::Indirect_X, 6)),
        0x43 => Some(entry(code, Instruction::Sre, AddressingMode::Indirect_X, 8)),
        0x44 => Some(entry(code, Instruction::Nop, AddressingMode::ZeroPage, 3)),
        0x45 => Some(entry(code, Instruction::Eor, AddressingMode::ZeroPage, 3)),
        0x46 => Some(entry(code, Instruction::Lsr, AddressingMode::ZeroPage, 5)),
        0x47 => Some(entry(code, Instruction::Sre, AddressingMode::ZeroPage, 5)),
        0x48 => Some(entry(code, Instruction::Pha, AddressingMode::Implied, 3)),
        0x49 => Some(entry(code, Instruction::Eor, AddressingMode::Immediate, 2)),
        0x4A => Some(entry(code, Instruction::Lsr, AddressingMode::Accumulator, 2)),
        0x4C => Some(entry(code, Instruction::Jmp, AddressingMode::Absolute, 3)),
        0x4D => Some(entry(code, Instruction::Eor, AddressingMode::Absolute, 4)),
        0x4E => Some(entry(code, Instruction::Lsr, AddressingMode::Absolute, 6)),
        0x4F => Some(entry(code, Instruction::Sre, AddressingMode::Absolute, 6)),
        _ => None,
    }
}

/// The row of the instruction table for the opcodes $50 to $5F.
pub open spec fn spec_row_5(code: u8) -> Option<Decoded> {
    match code {
        0x50 => Some(spec_entry(code, Instruction::Bvc, AddressingMode::Relative, 2)),
        0x51 => Some(spec_entry(code, Instruction::Eor, AddressingMode::Indirect_Y, 5)),
        0x53 => Some(spec_entry(code, Instruction::Sre, AddressingMode::Indirect_Y, 8)),
        0x54 => Some(spec_entry(code, Instruction::Nop, AddressingMode::ZeroPage_X, 4)),
        0x55 => Some(spec_entry(code, Instruction::Eor, AddressingMode::ZeroPage_X, 4)),
        0x56 => Some(spec_entry(code, Instruction::Lsr, AddressingMode::ZeroPage_X, 6)),
        0x57 => Some(spec_entry(code, Instruction::Sre, AddressingMode::ZeroPage_X, 6)),
        0x58 => Some(spec_entry(code, Instruction::Cli, AddressingMode::Implied, 2)),
        0x59 => Some(spec_entry(code, Instruction::Eor, AddressingMode::Absolute_Y, 4)),
        0x5A => Some(spec_entry(code, Instruction::Nop, AddressingMode::Implied, 2)),
        0x5B => Some(spec_entry(code, Instruction::Sre, AddressingMode::Absolute_Y, 7)),
        0x5C => Some(spec_entry(code, Instruction::Nop, AddressingMode::Absolute_X, 4)),
        0x5D => Some(spec_entry(code, Instruction::Eor, AddressingMode::Absolute_X, 4)),
        0x5E => Some(spec_entry(code, Instruction::Lsr, AddressingMode::Absolute_X, 7)),
        0x5F => Some(spec_entry(code, Instruction::Sre, AddressingMode::Absolute_X, 7)),
        _ => None,
    }
}

fn row_5(code: u8) -> (decoded: Option<Decoded>)
    ensures
        decoded == spec_row_5(code),
        decoded matches Some(op) ==> op.wf() && op.code == code,
{
    match code {
        0x50 => Some(entry(code, Instruction::Bvc, AddressingMode::Relative, 2)),
        0x51 => Some(entry(code, Instruction::Eor, AddressingMode::Indirect_Y, 5)),
        0x53 => Some(entry(code, Instruction::Sre, AddressingMode::Indirect_Y, 8)),
        0x54 => Some(entry(code, Instruction::Nop, AddressingMode::ZeroPage_X, 4)),
        0x55 => Some(entry(code, Instruction::Eor, AddressingMode::ZeroPage_X, 4)),
        0x56 => Some(entry(code, Instruction::Lsr, AddressingMode::ZeroPage_X, 6)),
        0x57 => Some(entry(code, Instruction::Sre, AddressingMode::ZeroPage_X, 6)),
        0x58 => Some(entry(code, Instruction::Cli, AddressingMode::Implied, 2)),
        0x59 => Some(entry(code, Instruction::Eor, AddressingMode::Absolute_Y, 4)),
        0x5A => Some(entry(code, Instruction::Nop, AddressingMode::Implied, 2)),
        0x5B => Some(entry(code, Instruction::Sre, AddressingMode::Absolute_Y, 7)),
        0x5C => Some(entry(code, Instruction::Nop, AddressingMode::Absolute_X, 4)),
        0x5D => Some(entry(code, Instruction::Eor, AddressingMode::Absolute_X, 4)),
        0x5E => Some(entry(code, Instruction::Lsr, AddressingMode::Absolute_X, 7)),
        0x5F => Some(entry(code, Instruction::Sre, AddressingMode::Absolute_X, 7)),
        _ => None,
    }
}

/// The row of the instruction table for the opcodes $60 to $6F.
pub open spec fn spec_row_6(code: u8) -> Option<Decoded> {
    match code {
        0x60 => Some(spec_entry(code, Instruction::Rts, AddressingMode::Implied, 6)),
        0x61 => Some(spec_entry(code, Instruction::Adc, AddressingMode::Indirect_X, 6)),
        0x63 => Some(spec_entry(code, Instruction::Rra, AddressingMode::Indirect_X, 8)),
        0x64 => Some(spec_entry(code, Instruction::Nop, AddressingMode::ZeroPage, 3)),
        0x65 => Some(spec_entry(code, Instruction::Adc, AddressingMode::ZeroPage, 3)),
        0x66 => Some(spec_entry(code, Instruction::Ror, AddressingMode::ZeroPage, 5)),
        0x67 => Some(spec_entry(code, Instruction::Rra, AddressingMode::ZeroPage, 5)),
        0x68 => Some(spec_entry(code, Instruction::Pla, AddressingMode::Implied, 4)),
        0x69 => Some(spec_entry(code, Instruction::Adc, AddressingMode::Immediate, 2)),
        0x6A => Some(spec_entry(code, Instruction::Ror, AddressingMode::Accumulator, 2)),
        0x6C => Some(spec_entry(code, Instruction::Jmp, AddressingMode::Indirect, 5)),
        0x6D => Some(spec_entry(code, Instruction::Adc, AddressingMode::Absolute, 4)),
        0x6E => Some(spec_entry(code, Instruction::Ror, AddressingMode::Absolute, 6)),
        0x6F => Some(spec_entry(code, Instruction::Rra, AddressingMode::Absolute, 6)),
        _ => None,
    }
}

fn row_6(code: u8) -> (decoded: Option<Decoded>)
    ensures
        decoded == spec_row_6(code),
        decoded matches Some(op) ==> op.wf() && op.code == code,
{
    match code {
        0x60 => Some(entry(code, Instruction::Rts, AddressingMode::Implied, 6)),
        0x61 => Some(entry(code, Instruction::Adc, AddressingMode::Indirect_X, 6)),
        0x63 => Some(entry(code, Instruction::Rra, AddressingMode::Indirect_X, 8)),
        0x64 => Some(entry(code, Instruction::Nop, AddressingMode::ZeroPage, 3)),
        0x65 => Some(entry(code, Instruction::Adc, AddressingMode::ZeroPage, 3)),
        0x66 => Some(entry(code, Instruction::Ror, AddressingMode::ZeroPage, 5)),
        0x67 => Some(entry(code, Instruction::Rra, AddressingMode::ZeroPage, 5)),
        0x68 => Some(entry(code, Instruction::Pla, AddressingMode::Implied, 4)),
        0x69 => Some(entry(code, Instruction::Adc, AddressingMode::Immediate, 2)),
        0x6A => Some(entry(code, Instruction::Ror, AddressingMode::Accumulator, 2)),
        0x6C => Some(entry(code, Instruction::Jmp, AddressingMode::Indirect, 5)),
        0x6D => Some(entry(code, Instruction::Adc, AddressingMode::Absolute, 4)),
        0x6E => Some(entry(code, Instruction::Ror, AddressingMode::Absolute, 6)),
        0x6F => Some(entry(code, Instruction::Rra, AddressingMode::Absolute, 6)),
        _ => None,
    }
}

/// The row of the instruction table for the opcodes $70 to $7F.
pub open spec fn spec_row_7(code: u8) -> Option<Decoded> {
    match code {
        0x70 => Some(spec_entry(code, Instruction::Bvs, AddressingMode::Relative, 2)),
        0x71 => Some(spec_entry(code, Instruction::Adc, AddressingMode::Indirect_Y, 5)),
        0x73 => Some(spec_entry(code, Instruction::Rra, AddressingMode::Indirect_Y, 8)),
        0x74 => Some(spec_entry(code, Instruction::Nop, AddressingMode::ZeroPage_X, 4)),
        0x75 => Some(spec_entry(code, Instruction::Adc, AddressingMode::ZeroPage_X, 4)),
        0x76 => Some(spec_entry(code, Instruction::Ror, AddressingMode::ZeroPage_X, 6)),
        0x77 => Some(spec_entry(code, Instruction::Rra, AddressingMode::ZeroPage_X, 6)),
        0x78 => Some(spec_entry(code, Instruction::Sei, AddressingMode::Implied, 2)),
        0x79 => Some(spec_entry(code, Instruction::Adc, AddressingMode::Absolute_Y, 4)),
        0x7A => Some(spec_entry(code, Instruction::Nop, AddressingMode::Implied, 2)),
        0x7B => Some(spec_entry(code, Instruction::Rra, AddressingMode::Absolute_Y, 7)),
        0x7C => Some(spec_entry(code, Instruction::Nop, AddressingMode::Absolute_X, 4)),
        0x7D => Some(spec_entry(code, Instruction::Adc, AddressingMode::Absolute_X, 4)),
        0x7E => Some(spec_entry(code, Instruction::Ror, AddressingMode::Absolute_X, 7)),
        0x7F => Some(spec_entry(code, Instruction::Rra, AddressingMode::Absolute_X, 7)),
        _ => None,
    }
}

fn row_7(code: u8) -> (decoded: Option<Decoded>)
    ensures
        decoded == spec_row_7(code),
        decoded matches Some(op) ==> op.wf() && op.code == code,
{
    match code {
        0x70 => Some(entry(code, Instruction::Bvs, AddressingMode::Relative, 2)),
        0x71 => Some(entry(code, Instruction::Adc, AddressingMode::Indirect_Y, 5)),
        0x73 => Some(entry(code, Instruction::Rra, AddressingMode::Indirect_Y, 8)),
        0x74 => Some(entry(code, Instruction::Nop, AddressingMode::ZeroPage_X, 4)),
        0x75 => Some(entry(code, Instruction::Adc, AddressingMode::ZeroPage_X, 4)),
        0x76 => Some(entry(code, Instruction::Ror, AddressingMode::ZeroPage_X, 6)),
        0x77 => Some(entry(code, Instruction::Rra, AddressingMode::ZeroPage_X, 6)),
        0x78 => Some(entry(code, Instruction::Sei, AddressingMode::Implied, 2)),
        0x79 => Some(entry(code, Instruction::Adc, AddressingMode::Absolute_Y, 4)),
        0x7A => Some(entry(code, Instruction::Nop, AddressingMode::Implied, 2)),
        0x7B => Some(entry(code, Instruction::Rra, AddressingMode::Absolute_Y, 7)),
        0x7C => Some(entry(code, Instruction::Nop, AddressingMode::Absolute_X, 4)),
        0x7D => Some(entry(code, Instruction::Adc, AddressingMode::Absolute_X, 4)),
        0x7E => Some(entry(code, Instruction::Ror, AddressingMode::Absolute_X, 7)),
        0x7F => Some(entry(code, Instruction::Rra, AddressingMode::Absolute_X, 7)),
        _ => None,
    }
}

/// The row of the instruction table for the opcodes $80 to $8F.
pub open spec fn spec_row_8(code: u8) -> Option<Decoded> {
    match code {
        0x80 => Some(spec_entry(code, Instruction::Nop, AddressingMode::Immediate, 2)),
        0x81 => Some(spec_entry(code, Instruction::Sta, AddressingMode::Indirect_X, 6)),
        0x82 => Some(spec_entry(code, Instruction::Nop, AddressingMode::Immediate, 2)),
        0x83 => Some(spec_entry(code, Instruction::Sax, AddressingMode::Indirect_X, 6)),
        0x84 => Some(spec_entry(code, Instruction::Sty, AddressingMode::ZeroPage, 3)),
        0x85 => Some(spec_entry(code, Instruction::Sta, AddressingMode::ZeroPage, 3)),
        0x86 => Some(spec_entry(code, Instruction::Stx, AddressingMode::ZeroPage, 3)),
        0x87 => Some(spec_entry(code, Instruction::Sax, AddressingMode::ZeroPage, 3)),
        0x88 => Some(spec_entry(code, Instruction::Dey, AddressingMode::Implied, 2)),
        0x89 => Some(spec_entry(code, Instruction::Nop, AddressingMode::Immediate, 2)),
        0x8A => Some(spec_entry(code, Instruction::Txa, AddressingMode::Implied, 2)),
        0x8B => Some(spec_entry(code, Instruction::Ane, AddressingMode::Immediate, 2)),
        0x8C => Some(spec_entry(code, Instruction::Sty, AddressingMode::Absolute, 4)),
        0x8D => Some(spec_entry(code, Instruction::Sta, AddressingMode::Absolute, 4)),
        0x8E => Some(spec_entry(code, Instruction::Stx, AddressingMode::Absolute, 4)),
        0x8F => Some(spec_entry(code, Instruction::Sax, AddressingMode::Absolute, 4)),
        _ => None,
    }
}

fn row_8(code: u8) -> (decoded: Option<Decoded>)
    ensures
        decoded == spec_row_8(code),
        decoded matches Some(op) ==> op.wf() && op.code == code,
{
    match code {
        0x80 => Some(entry(code, Instruction::Nop, AddressingMode::Immediate, 2)),
        0x81 => Some(entry(code, Instruction::Sta, AddressingMode::Indirect_X, 6)),
        0x82 => Some(entry(code, Instruction::Nop, AddressingMode::Immediate, 2)),
        0x83 => Some(entry(code, Instruction::Sax, AddressingMode::Indirect_X, 6)),
        0x84 => Some(entry(code, Instruction::Sty, AddressingMode::ZeroPage, 3)),
        0x85 => Some(entry(code, Instruction::Sta, AddressingMode::ZeroPage, 3)),
        0x86 => Some(entry(code, Instruction::Stx, AddressingMode::ZeroPage, 3)),
        0x87 => Some(entry(code, Instruction::Sax, AddressingMode::ZeroPage, 3)),
        0x88 => Some(entry(code, Instruction::Dey, AddressingMode::Implied, 2)),
        0x89 => Some(entry(code, Instruction::Nop, AddressingMode::Immediate, 2)),
        0x8A => Some(entry(code, Instruction::Txa, AddressingMode::Implied, 2)),
        0x8B => Some(entry(code, Instruction::Ane, AddressingMode::Immediate, 2)),
        0x8C => Some(entry(code, Instruction::Sty, AddressingMode::Absolute, 4)),
        0x8D => Some(entry(code, Instruction::Sta, AddressingMode::Absolute, 4)),
        0x8E => Some(entry(code, Instruction::Stx, AddressingMode::Absolute, 4)),
        0x8F => Some(entry(code, Instruction::Sax, AddressingMode::Absolute, 4)),
        _ => None,
    }
}

/// The row of the instruction table for the opcodes $90 to $9F.
pub open spec fn spec_row_9(code: u8) -> Option<Decoded> {
    match code {
        0x90 => Some(spec_entry(code, Instruction::Bcc, AddressingMode::Relative, 2)),
        0x91 => Some(spec_entry(code, Instruction::Sta, AddressingMode::Indirect_Y, 6)),
        0x94 => Some(spec_entry(code, Instruction::Sty, AddressingMode::ZeroPage_X, 4)),
        0x95 => Some(spec_entry(code, Instruction::Sta, AddressingMode::ZeroPage_X, 4)),
        0x96 => Some(spec_entry(code, Instruction::Stx, AddressingMode::ZeroPage_Y, 4)),
        0x97 => Some(spec_entry(code, Instruction::Sax, AddressingMode::ZeroPage_Y, 4)),
        0x98 => Some(spec_entry(code, Instruction::Tya, AddressingMode::Implied, 2)),
        0x99 => Some(spec_entry(code, Instruction::Sta, AddressingMode::Absolute_Y, 5)),
        0x9A => Some(spec_entry(code, Instruction::Txs, AddressingMode::Implied, 2)),
        0x9C => Some(spec_entry(code, Instruction::Shy, AddressingMode::Absolute_X, 5)),
        0x9D => Some(spec_entry(code, Instruction::Sta, AddressingMode::Absolute_X, 5)),
        0x9E => Some(spec_entry(code, Instruction::Shx, AddressingMode::Absolute_Y, 5)),
        _ => None,
    }
}

fn row_9(code: u8) -> (decoded: Option<Decoded>)
    ensures
        decoded == spec_row_9(code),
        decoded matches Some(op) ==> op.wf() && op.code == code,
{
    match code {
        0x90 => Some(entry(code, Instruction::Bcc, AddressingMode::Relative, 2)),
        0x91 => Some(entry(code, Instruction::Sta, AddressingMode::Indirect_Y, 6)),
        0x94 => Some(entry(code, Instruction::Sty, AddressingMode::ZeroPage_X, 4)),
        0x95 => Some(entry(code, Instruction::Sta, AddressingMode::ZeroPage_X, 4)),
        0x96 => Some(entry(code, Instruction::Stx, AddressingMode::ZeroPage_Y, 4)),
        0x97 => Some(entry(code, Instruction::Sax, AddressingMode::ZeroPage_Y, 4)),
        0x98 => Some(entry(code, Instruction::Tya, AddressingMode::Implied, 2)),
        0x99 => Some(entry(code, Instruction::Sta, AddressingMode::Absolute_Y, 5)),
        0x9A => Some(entry(code, Instruction::Txs, AddressingMode::Implied, 2)),
        0x9C => Some(entry(code, Instruction::Shy, AddressingMode::Absolute_X, 5)),
        0x9D => Some(entry(code, Instruction::Sta, AddressingMode::Absolute_X, 5)),
        0x9E => Some(entry(code, Instruction::Shx, AddressingMode::Absolute_Y, 5)),
        _ => None,
    }
}

/// The row of the instruction table for the opcodes $A0 to $AF.
pub open spec fn spec_row_a(code: u8) -> Option<Decoded> {
    match code {
        0xA0 => Some(spec_entry(code, Instruction::Ldy, AddressingMode::Immediate, 2)),
        0xA1 => Some(spec_entry(code, Instruction::Lda, AddressingMode::Indirect_X, 6)),
        0xA2 => Some(spec_entry(code, Instruction::Ldx, AddressingMode::Immediate, 2)),
        0xA3 => Some(spec_entry(code, Instruction::Lax, AddressingMode::Indirect_X, 6)),
        0xA4 => Some(spec_entry(code, Instruction::Ldy, AddressingMode::ZeroPage, 3)),
        0xA5 => Some(spec_entry(code, Instruction::Lda, AddressingMode::ZeroPage, 3)),
        0xA6 => Some(spec_entry(code, Instruction::Ldx, AddressingMode::ZeroPage, 3)),
        0xA7 => Some(spec_entry(code, Instruction::Lax, AddressingMode::ZeroPage, 3)),
        0xA8 => Some(spec_entry(code, Instruction::Tay, AddressingMode::Implied, 2)),
        0xA9 => Some(spec_entry(code, Instruction::Lda, AddressingMode::Immediate, 2)),
        0xAA => Some(spec_entry(code, Instruction::Tax, AddressingMode::Implied, 2)),
        0xAC => Some(spec_entry(code, Instruction::Ldy, AddressingMode::Absolute, 4)),
        0xAD => Some(spec_entry(code, Instruction::Lda, AddressingMode::Absolute, 4)),
        0xAE => Some(spec_entry(code, Instruction::Ldx, AddressingMode::Absolute, 4)),
        0xAF => Some(spec_entry(code, Instruction::Lax, AddressingMode::Absolute, 4)),
        _ => None,
    }
}

fn row_a(code: u8) -> (decoded: Option<Decoded>)
    ensures
        decoded == spec_row_a(code),
        decoded matches Some(op) ==> op.wf() && op.code == code,
{
    match code {
        0xA0 => Some(entry(code, Instruction::Ldy, AddressingMode::Immediate, 2)),
        0xA1 => Some(entry(code, Instruction::Lda, AddressingMode::Indirect_X, 6)),
        0xA2 => Some(entry(code, Instruction::Ldx, AddressingMode::Immediate, 2)),
        0xA3 => Some(entry(code, Instruction::Lax, AddressingMode::Indirect_X, 6)),
        0xA4 => Some(entry(code, Instruction::Ldy, AddressingMode::ZeroPage, 3)),
        0xA5 => Some(entry(code, Instruction::Lda, AddressingMode::ZeroPage, 3)),
        0xA6 => Some(entry(code, Instruction::Ldx, AddressingMode::ZeroPage, 3)),
        0xA7 => Some(entry(code, Instruction::Lax, AddressingMode::ZeroPage, 3)),
        0xA8 => Some(entry(code, Instruction::Tay, AddressingMode::Implied, 2)),
        0xA9 => Some(entry(code, Instruction::Lda, AddressingMode::Immediate, 2)),
        0xAA => Some(entry(code, Instruction::Tax, AddressingMode::Implied, 2)),
        0xAC => Some(entry(code, Instruction::Ldy, AddressingMode::Absolute, 4)),
        0xAD => Some(entry(code, Instruction::Lda, AddressingMode::Absolute, 4)),
        0xAE => Some(entry(code, Instruction::Ldx, AddressingMode::Absolute, 4)),
        0xAF => Some(entry(code, Instruction::Lax, AddressingMode::Absolute, 4)),
        _ => None,
    }
}

/// The row of the instruction table for the opcodes $B0 to $BF.
pub open spec fn spec_row_b(code: u8) -> Option<Decoded> {
    match code {
        0xB0 => Some(spec_entry(code, Instruction::Bcs, AddressingMode::Relative, 2)),
        0xB1 => Some(spec_entry(code, Instruction::Lda, AddressingMode::Indirect_Y, 5)),
        0xB3 => Some(spec_entry(code, Instruction::Lax, AddressingMode::Indirect_Y, 5)),
        0xB4 => Some(spec_entry(code, Instruction::Ldy, AddressingMode::ZeroPage_X, 4)),
        0xB5 => Some(spec_entry(code, Instruction::Lda, AddressingMode::ZeroPage_X, 4)),
        0xB6 => Some(spec_entry(code, Instruction::Ldx, AddressingMode::ZeroPage_Y, 4)),
        0xB7 => Some(spec_entry(code, Instruction::Lax, AddressingMode::ZeroPage_Y, 4)),
        0xB8 => Some(spec_entry(code, Instruction::Clv, AddressingMode::Implied, 2)),
        0xB9 => Some(spec_entry(code, Instruction::Lda, AddressingMode::Absolute_Y, 4)),
        0xBA => Some(spec_entry(code, Instruction::Tsx, AddressingMode::Implied, 2)),
        0xBC => Some(spec_entry(code, Instruction::Ldy, AddressingMode::Absolute_X, 4)),
        0xBD => Some(spec_entry(code, Instruction::Lda, AddressingMode::Absolute_X, 4)),
        0xBE => Some(spec_entry(code, Instruction::Ldx, AddressingMode::Absolute_Y, 4)),
        0xBF => Some(spec_entry(code, Instruction::Lax, AddressingMode::Absolute_Y, 4)),
        _ => None,
    }
}

fn row_b(code: u8) -> (decoded: Option<Decoded>)
    ensures
        decoded == spec_row_b(code),
        decoded matches Some(op) ==> op.wf() && op.code == code,
{
    match code {
        0xB0 => Some(entry(code, Instruction::Bcs, AddressingMode::Relative, 2)),
        0xB1 => Some(entry(code, Instruction::Lda, AddressingMode::Indirect_Y, 5)),
        0xB3 => Some(entry(code, Instruction::Lax, AddressingMode::Indirect_Y, 5)),
        0xB4 => Some(entry(code, Instruction::Ldy, AddressingMode::ZeroPage_X, 4)),
        0xB5 => Some(entry(code, Instruction::Lda, AddressingMode::ZeroPage_X, 4)),
        0xB6 => Some(entry(code, Instruction::Ldx, AddressingMode::ZeroPage_Y, 4)),
        0xB7 => Some(entry(code, Instruction::Lax, AddressingMode::ZeroPage_Y, 4)),
        0xB8 => Some(entry(code, Instruction::Clv, AddressingMode::Implied, 2)),
        0xB9 => Some(entry(code, Instruction::Lda, AddressingMode::Absolute_Y, 4)),
        0xBA => Some(entry(code, Instruction::Tsx, AddressingMode::Implied, 2)),
        0xBC => Some(entry(code, Instruction::Ldy, AddressingMode::Absolute_X, 4)),
        0xBD => Some(entry(code, Instruction::Lda, AddressingMode::Absolute_X, 4)),
        0xBE => Some(entry(code, Instruction::Ldx, AddressingMode::Absolute_Y, 4)),
        0xBF => Some(entry(code, Instruction::Lax, AddressingMode::Absolute_Y, 4)),
        _ => None,
    }
}

/// The row of the instruction table for the opcodes $C0 to $CF.
pub open spec fn spec_row_c(code: u8) -> Option<Decoded> {
    match code {
        0xC0 => Some(spec_entry(code, Instruction::Cpy, AddressingMode::Immediate, 2)),
        0xC1 => Some(spec_entry(code, Instruction::Cmp, AddressingMode::Indirect_X, 6)),
        0xC2 => Some(spec_entry(code, Instruction::Nop, AddressingMode::Immediate, 2)),
        0xC3 => Some(spec_entry(code, Instruction::Dcp, AddressingMode::Indirect_X, 8)),
        0xC4 => Some(spec_entry(code, Instruction::Cpy, AddressingMode::ZeroPage, 3)),
        0xC5 => Some(spec_entry(code, Instruction::Cmp, AddressingMode::ZeroPage, 3)),
        0xC6 => Some(spec_entry(code, Instruction::Dec, AddressingMode::ZeroPage, 5)),
        0xC7 => Some(spec_entry(code, Instruction::Dcp, AddressingMode::ZeroPage, 5)),
        0xC8 => Some(spec_entry(code, Instruction::Iny, AddressingMode::Implied, 2)),
        0xC9 => Some(spec_entry(code, Instruction::Cmp, AddressingMode::Immediate, 2)),
        0xCA => Some(spec_entry(code, Instruction::Dex, AddressingMode::Implied, 2)),
        0xCC => Some(spec_entry(code, Instruction::Cpy, AddressingMode::Absolute, 4)),
        0xCD => Some(spec_entry(code, Instruction::Cmp, AddressingMode::Absolute, 4)),
        0xCE => Some(spec_entry(code, Instruction::Dec, AddressingMode::Absolute, 6)),
        0xCF => Some(spec_entry(code, Instruction::Dcp, AddressingMode::Absolute, 6)),
        _ => None,
    }
}

fn row_c(code: u8) -> (decoded: Option<Decoded>)
    ensures
        decoded == spec_row_c(code),
        decoded matches Some(op) ==> op.wf() && op.code == code,
{
    match code {
        0xC0 => Some(entry(code, Instruction::Cpy, AddressingMode::Immediate, 2)),
        0xC1 => Some(entry(code, Instruction::Cmp, AddressingMode::Indirect_X, 6)),
        0xC2 => Some(entry(code, Instruction::Nop, AddressingMode::Immediate, 2)),
        0xC3 => Some(entry(code, Instruction::Dcp, AddressingMode::Indirect_X, 8)),
        0xC4 => Some(entry(code, Instruction::Cpy, AddressingMode::ZeroPage, 3)),
        0xC5 => Some(entry(code, Instruction::Cmp, AddressingMode::ZeroPage, 3)),
        0xC6 => Some(entry(code, Instruction::Dec, AddressingMode::ZeroPage, 5)),
        0xC7 => Some(entry(code, Instruction::Dcp, AddressingMode::ZeroPage, 5)),
        0xC8 => Some(entry(code, Instruction::Iny, AddressingMode::Implied, 2)),
        0xC9 => Some(entry(code, Instruction::Cmp, AddressingMode::Immediate, 2)),
        0xCA => Some(entry(code, Instruction::Dex, AddressingMode::Implied, 2)),
        0xCC => Some(entry(code, Instruction::Cpy, AddressingMode::Absolute, 4)),
        0xCD => Some(entry(code, Instruction::Cmp, AddressingMode::Absolute, 4)),
        0xCE => Some(entry(code, Instruction::Dec, AddressingMode::Absolute, 6)),
        0xCF => Some(entry(code, Instruction::Dcp, AddressingMode::Absolute, 6)),
        _ => None,
    }
}

/// The row of the instruction table for the opcodes $D0 to $DF.
pub open spec fn spec_row_d(code: u8) -> Option<Decoded> {
    match code {
        0xD0 => Some(spec_entry(code, Instruction::Bne, AddressingMode::Relative, 2)),
        0xD1 => Some(spec_entry(code, Instruction::Cmp, AddressingMode::Indirect_Y, 5)),
        0xD3 => Some(spec_entry(code, Instruction::Dcp, AddressingMode::Indirect_Y, 8)),
        0xD4 => Some(spec_entry(code, Instruction::Nop, AddressingMode::ZeroPage_X, 4)),
        0xD5 => Some(spec_entry(code, Instruction::Cmp, AddressingMode::ZeroPage_X, 4)),
        0xD6 => Some(spec_entry(code, Instruction::Dec, AddressingMode::ZeroPage_X, 6)),
        0xD7 => Some(spec_entry(code, Instruction::Dcp, AddressingMode::ZeroPage_X, 6)),
        0xD8 => Some(spec_entry(code, Instruction::Cld, AddressingMode::Implied, 2)),
        0xD9 => Some(spec_entry(code, Instruction::Cmp, AddressingMode::Absolute_Y, 4)),
        0xDA => Some(spec_entry(code, Instruction::Nop, AddressingMode::Implied, 2)),
        0xDB => Some(spec_entry(code, Instruction::Dcp, AddressingMode::Absolute_Y, 7)),
        0xDC => Some(spec_entry(code, Instruction::Nop, AddressingMode::Absolute_X, 4)),
        0xDD => Some(spec_entry(code, Instruction::Cmp, AddressingMode::Absolute_X, 4)),
        0xDE => Some(spec_entry(code, Instruction::Dec, AddressingMode::Absolute_X, 7)),
        0xDF => Some(spec_entry(code, Instruction::Dcp, AddressingMode::Absolute_X, 7)),
        _ => None,
    }
}

fn row_d(code: u8) -> (decoded: Option<Decoded>)
    ensures
        decoded == spec_row_d(code),
        decoded matches Some(op) ==> op.wf() && op.code == code,
{
    match code {
        0xD0 => Some(entry(code, Instruction::Bne, AddressingMode::Relative, 2)),
        0xD1 => Some(entry(code, Instruction::Cmp, AddressingMode::Indirect_Y, 5)),
        0xD3 => Some(entry(code, Instruction::Dcp, AddressingMode::Indirect_Y, 8)),
        0xD4 => Some(entry(code, Instruction::Nop, AddressingMode::ZeroPage_X, 4)),
        0xD5 => Some(entry(code, Instruction::Cmp, AddressingMode::ZeroPage_X, 4)),
        0xD6 => Some(entry(code, Instruction::Dec, AddressingMode::ZeroPage_X, 6)),
        0xD7 => Some(entry(code, Instruction::Dcp, AddressingMode::ZeroPage_X, 6)),
        0xD8 => Some(entry(code, Instruction::Cld, AddressingMode::Implied, 2)),
        0xD9 => Some(entry(code, Instruction::Cmp, AddressingMode::Absolute_Y, 4)),
        0xDA => Some(entry(code, Instruction::Nop, AddressingMode::Implied, 2)),
        0xDB => Some(entry(code, Instruction::Dcp, AddressingMode::Absolute_Y, 7)),
        0xDC => Some(entry(code, Instruction::Nop, AddressingMode::Absolute_X, 4)),
        0xDD => Some(entry(code, Instruction::Cmp, AddressingMode::Absolute_X, 4)),
        0xDE => Some(entry(code, Instruction::Dec, AddressingMode::Absolute_X, 7)),
        0xDF => Some(entry(code, Instruction::Dcp, AddressingMode::Absolute_X, 7)),
        _ => None,
    }
}

/// The row of the instruction table for the opcodes $E0 to $EF.
pub open spec fn spec_row_e(code: u8) -> Option<Decoded> {
    match code {
        0xE0 => Some(spec_entry(code, Instruction::Cpx, AddressingMode::Immediate, 2)),
        0xE1 => Some(spec_entry(code, Instruction::Sbc, AddressingMode::Indirect_X, 6)),
        0xE2 => Some(spec_entry(code, Instruction::Nop, AddressingMode::Immediate, 2)),
        0xE3 => Some(spec_entry(code, Instruction::Isb, AddressingMode::Indirect_X, 8)),
        0xE4 => Some(spec_entry(code, Instruction::Cpx, AddressingMode::ZeroPage, 3)),
        0xE5 => Some(spec_entry(code, Instruction::Sbc, AddressingMode::ZeroPage, 3)),
        0xE6 => Some(spec_entry(code, Instruction::Inc, AddressingMode::ZeroPage, 5)),
        0xE7 => Some(spec_entry(code, Instruction::Isb, AddressingMode::ZeroPage, 5)),
        0xE8 => Some(spec_entry(code, Instruction::Inx, AddressingMode::Implied, 2)),
        0xE9 => Some(spec_entry(code, Instruction::Sbc, AddressingMode::Immediate, 2)),
        0xEA => Some(spec_entry(code, Instruction::Nop, AddressingMode::Implied, 2)),
        0xEB => Some(spec_entry(code, Instruction::Sbc, AddressingMode::Immediate, 2)),
        0xEC => Some(spec_entry(code, Instruction::Cpx, AddressingMode::Absolute, 4)),
        0xED => Some(spec_entry(code, Instruction::Sbc, AddressingMode::Absolute, 4)),
        0xEE => Some(spec_entry(code, Instruction::Inc, AddressingMode::Absolute, 6)),
        0xEF => Some(spec_entry(code, Instruction::Isb, AddressingMode::Absolute, 6)),
        _ => None,
    }
}

fn row_e(code: u8) -> (decoded: Option<Decoded>)
    ensures
        decoded == spec_row_e(code),
        decoded matches Some(op) ==> op.wf() && op.code == code,
{
    match code {
        0xE0 => Some(entry(code, Instruction::Cpx, AddressingMode::Immediate, 2)),
        0xE1 => Some(entry(code, Instruction::Sbc, AddressingMode::Indirect_X, 6)),
        0xE2 => Some(entry(code, Instruction::Nop, AddressingMode::Immediate, 2)),
        0xE3 => Some(entry(code, Instruction::Isb, AddressingMode::Indirect_X, 8)),
        0xE4 => Some(entry(code, Instruction::Cpx, AddressingMode::ZeroPage, 3)),
        0xE5 => Some(entry(code, Instruction::Sbc, AddressingMode::ZeroPage, 3)),
        0xE6 => Some(entry(code, Instruction::Inc, AddressingMode::ZeroPage, 5)),
        0xE7 => Some(entry(code, Instruction::Isb, AddressingMode::ZeroPage, 5)),
        0xE8 => Some(entry(code, Instruction::Inx, AddressingMode::Implied, 2)),
        0xE9 => Some(entry(code, Instruction::Sbc, AddressingMode::Immediate, 2)),
        0xEA => Some(entry(code, Instruction::Nop, AddressingMode::Implied, 2)),
        0xEB => Some(entry(code, Instruction::Sbc, AddressingMode::Immediate, 2)),
        0xEC => Some(entry(code, Instruction::Cpx, AddressingMode::Absolute, 4)),
        0xED => Some(entry(code, Instruction::Sbc, AddressingMode::Absolute, 4)),
        0xEE => Some(entry(code, Instruction::Inc, AddressingMode::Absolute, 6)),
        0xEF => Some(entry(code, Instruction::Isb, AddressingMode::Absolute, 6)),
        _ => None,
    }
}

/// The row of the instruction table for the opcodes $F0 to $FF.
pub open spec fn spec_row_f(code: u8) -> Option<Decoded> {
    match code {
        0xF0 => Some(spec_entry(code, Instruction::Beq, AddressingMode::Relative, 2)),
        0xF1 => Some(spec_entry(code, Instruction::Sbc, AddressingMode::Indirect_Y, 5)),
        0xF3 => Some(spec_entry(code, Instruction::Isb, AddressingMode::Indirect_Y, 8)),
        0xF4 => Some(spec_entry(code, Instruction::Nop, AddressingMode::ZeroPage_X, 4)),
        0xF5 => Some(spec_entry(code, Instruction::Sbc, AddressingMode::ZeroPage_X, 4)),
        0xF6 => Some(spec_entry(code, Instruction::Inc, AddressingMode::ZeroPage_X, 6)),
        0xF7 => Some(spec_entry(code, Instruction::Isb, AddressingMode::ZeroPage_X, 6)),
        0xF8 => Some(spec_entry(code, Instruction::Sed, AddressingMode::Implied, 2)),
        0xF9 => Some(spec_entry(code, Instruction::Sbc, AddressingMode::Absolute_Y, 4)),
        0xFA => Some(spec_entry(code, Instruction::Nop, AddressingMode::Implied, 2)),
        0xFB => Some(spec_entry(code, Instruction::Isb, AddressingMode::Absolute_Y, 7)),
        0xFC => Some(spec_entry(code, Instruction::Nop, AddressingMode::Absolute_X, 4)),
        0xFD => Some(spec_entry(code, Instruction::Sbc, AddressingMode::Absolute_X, 4)),
        0xFE => Some(spec_entry(code, Instruction::Inc, AddressingMode::Absolute_X, 7)),
        0xFF => Some(spec_entry(code, Instruction::Isb, AddressingMode::Absolute_X, 7)),
        _ => None,
    }
}

fn row_f(code: u8) -> (decoded: Option<Decoded>)
    ensures
        decoded == spec_row_f(code),
        decoded matches Some(op) ==> op.wf() && op.code == code,
{
    match code {
        0xF0 => Some(entry(code, Instruction::Beq, AddressingMode::Relative, 2)),
        0xF1 => Some(entry(code, Instruction::Sbc, AddressingMode::Indirect_Y, 5)),
        0xF3 => Some(entry(code, Instruction::Isb, AddressingMode::Indirect_Y, 8)),
        0xF4 => Some(entry(code, Instruction::Nop, AddressingMode::ZeroPage_X, 4)),
        0xF5 => Some(entry(code, Instruction::Sbc, AddressingMode::ZeroPage_X, 4)),
        0xF6 => Some(entry(code, Instruction::Inc, AddressingMode::ZeroPage_X, 6)),
        0xF7 => Some(entry(code, Instruction::Isb, AddressingMode::ZeroPage_X, 6)),
        0xF8 => Some(entry(code, Instruction::Sed, AddressingMode::Implied, 2)),
        0xF9 => Some(entry(code, Instruction::Sbc, AddressingMode::Absolute_Y, 4)),
        0xFA => Some(entry(code, Instruction::Nop, AddressingMode::Implied, 2)),
        0xFB => Some(entry(code, Instruction::Isb, AddressingMode::Absolute_Y, 7)),
        0xFC => Some(entry(code, Instruction::Nop, AddressingMode::Absolute_X, 4)),
        0xFD => Some(entry(code, Instruction::Sbc, AddressingMode::Absolute_X, 4)),
        0xFE => Some(entry(code, Instruction::Inc, AddressingMode::Absolute_X, 7)),
        0xFF => Some(entry(code, Instruction::Isb, AddressingMode::Absolute_X, 7)),
        _ => None,
    }
}

/// The instruction table. An opcode without an entry stands for no
/// instruction that the processor performs.
pub open spec fn spec_decode(code: u8) -> Option<Decoded> {
    match code / 16 {
        0 => spec_row_0(code),
        1 => spec_row_1(code),
        2 => spec_row_2(code),
        3 => spec_row_3(code),
        4 => spec_row_4(code),
        5 => spec_row_5(code),
        6 => spec_row_6(code),
        7 => spec_row_7(code),
        8 => spec_row_8(code),
        9 => spec_row_9(code),
        10 => spec_row_a(code),
        11 => spec_row_b(code),
        12 => spec_row_c(code),
        13 => spec_row_d(code),
        14 => spec_row_e(code),
        _ => spec_row_f(code),
    }
}

/// Looks an opcode up in the instruction table.
pub fn decode(code: u8) -> (decoded: Option<Decoded>)
    ensures
        decoded == spec_decode(code),
        decoded matches Some(op) ==> op.wf() && op.code == code,
{
    match code / 16 {
        0 => row_0(code),
        1 => row_1(code),
        2 => row_2(code),
        3 => row_3(code),
        4 => row_4(code),
        5 => row_5(code),
        6 => row_6(code),
        7 => row_7(code),
        8 => row_8(code),
        9 => row_9(code),
        10 => row_a(code),
        11 => row_b(code),
        12 => row_c(code),
        13 => row_d(code),
        14 => row_e(code),
        _ => row_f(code),
    }
}

/// True for the opcodes of the documented instructions.
pub open spec fn spec_is_official(op: Decoded) -> bool {
    match op.instruction {
        Instruction::Lax
        | Instruction::Sax
        | Instruction::Dcp
        | Instruction::Isb
        | Instruction::Slo
        | Instruction::Rla
        | Instruction::Sre
        | Instruction::Rra
        | Instruction::Shx
        | Instruction::Shy
        | Instruction::Ane => false,
        Instruction::Nop => op.code == 0xEA,
        Instruction::Sbc => op.code != 0xEB,
        _ => true,
    }
}

/// Tells whether an opcode is one of a documented instruction.
pub fn is_official(op: &Decoded) -> (official: bool)
    ensures
        official == spec_is_official(*op),
{
    match op.instruction {
        Instruction::Lax
        | Instruction::Sax
        | Instruction::Dcp
        | Instruction::Isb
        | Instruction::Slo
        | Instruction::Rla
        | Instruction::Sre
        | Instruction::Rra
        | Instruction::Shx
        | Instruction::Shy
        | Instruction::Ane => false,
        Instruction::Nop => op.code == 0xEA,
        Instruction::Sbc => op.code != 0xEB,
        _ => true,
    }
}

/// The three letters of an instruction.
pub open spec fn spec_letters(instruction: Instruction) -> Seq<char> {
    match instruction {
        Instruction::Adc => seq!['A', 'D', 'C'],
        Instruction::And => seq!['A', 'N', 'D'],
        Instruction::Asl => seq!['A', 'S', 'L'],
        Instruction::Bcc => seq!['B', 'C', 'C'],
        Instruction::Bcs => seq!['B', 'C', 'S'],
        Instruction::Beq => seq!['B', 'E', 'Q'],
        Instruction::Bit => seq!['B', 'I', 'T'],
        Instruction::Bmi => seq!['B', 'M', 'I'],
        Instruction::Bne => seq!['B', 'N', 'E'],
        Instruction::Bpl => seq!['B', 'P', 'L'],
        Instruction::Brk => seq!['B', 'R', 'K'],
        Instruction::Bvc => seq!['B', 'V', 'C'],
        Instruction::Bvs => seq!['B', 'V', 'S'],
        Instruction::Clc => seq!['C', 'L', 'C'],
        Instruction::Cld => seq!['C', 'L', 'D'],
        Instruction::Cli => seq!['C', 'L', 'I'],
        Instruction::Clv => seq!['C', 'L', 'V'],
        Instruction::Cmp => seq!['C', 'M', 'P'],
        Instruction::Cpx => seq!['C', 'P', 'X'],
        Instruction::Cpy => seq!['C', 'P', 'Y'],
        Instruction::Dec => seq!['D', 'E', 'C'],
        Instruction::Dex => seq!['D', 'E', 'X'],
        Instruction::Dey => seq!['D', 'E', 'Y'],
        Instruction::Eor => seq!['E', 'O', 'R'],
        Instruction::Inc => seq!['I', 'N', 'C'],
        Instruction::Inx => seq!['I', 'N', 'X'],
        Instruction::Iny => seq!['I', 'N', 'Y'],
        Instruction::Jmp => seq!['J', 'M', 'P'],
        Instruction::Jsr => seq!['J', 'S', 'R'],
        Instruction::Lda => seq!['L', 'D', 'A'],
        Instruction::Ldx => seq!['L', 'D', 'X'],
        Instruction::Ldy => seq!['L', 'D', 'Y'],
        Instruction::Lsr => seq!['L', 'S', 'R'],
        Instruction::Nop => seq!['N', 'O', 'P'],
        Instruction::Ora => seq!['O', 'R', 'A'],
        Instruction::Pha => seq!['P', 'H', 'A'],
        Instruction::Php => seq!['P', 'H', 'P'],
        Instruction::Pla => seq!['P', 'L', 'A'],
        Instruction::Plp => seq!['P', 'L', 'P'],
        Instruction::Rol => seq!['R', 'O', 'L'],
        Instruction::Ror => seq!['R', 'O', 'R'],
        Instruction::Rti => seq!['R', 'T', 'I'],
        Instruction::Rts => seq!['R', 'T', 'S'],
        Instruction::Sbc => seq!['S', 'B', 'C'],
        Instruction::Sec => seq!['S', 'E', 'C'],
        Instruction::Sed => seq!['S', 'E', 'D'],
        Instruction::Sei => seq!['S', 'E', 'I'],
        Instruction::Sta => seq!['S', 'T', 'A'],
        Instruction::Stx => seq!['S', 'T', 'X'],
        Instruction::Sty => seq!['S', 'T', 'Y'],
        Instruction::Tax => seq!['T', 'A', 'X'],
        Instruction::Tay => seq!['T', 'A', 'Y'],
        Instruction::Tsx => seq!['T', 'S', 'X'],
        Instruction::Txa => seq!['T', 'X', 'A'],
        Instruction::Txs => seq!['T', 'X', 'S'],
        Instruction::Tya => seq!['T', 'Y', 'A'],
        Instruction::Lax => seq!['L', 'A', 'X'],
        Instruction::Sax => seq!['S', 'A', 'X'],
        Instruction::Dcp => seq!['D', 'C', 'P'],
        Instruction::Isb => seq!['I', 'S', 'B'],
        Instruction::Slo => seq!['S', 'L', 'O'],
        Instruction::Rla => seq!['R', 'L', 'A'],
        Instruction::Sre => seq!['S', 'R', 'E'],
        Instruction::Rra => seq!['R', 'R', 'A'],
        Instruction::Shx => seq!['S', 'H', 'X'],
        Instruction::Shy => seq!['S', 'H', 'Y'],
        Instruction::Ane => seq!['A', 'N', 'E'],
    }
}

/// The three letters of an instruction.
pub fn letters(instruction: Instruction) -> (name: [char; 3])
    ensures
        name@ == spec_letters(instruction),
{
    let name = match instruction {
        Instruction::Adc => ['A', 'D', 'C'],
        Instruction::And => ['A', 'N', 'D'],
        Instruction::Asl => ['A', 'S', 'L'],
        Instruction::Bcc => ['B', 'C', 'C'],
        Instruction::Bcs => ['B', 'C', 'S'],
        Instruction::Beq => ['B', 'E', 'Q'],
        Instruction::Bit => ['B', 'I', 'T'],
        Instruction::Bmi => ['B', 'M', 'I'],
        Instruction::Bne => ['B', 'N', 'E'],
        Instruction::Bpl => ['B', 'P', 'L'],
        Instruction::Brk => ['B', 'R', 'K'],
        Instruction::Bvc => ['B', 'V', 'C'],
        Instruction::Bvs => ['B', 'V', 'S'],
        Instruction::Clc => ['C', 'L', 'C'],
        Instruction::Cld => ['C', 'L', 'D'],
        Instruction::Cli => ['C', 'L', 'I'],
        Instruction::Clv => ['C', 'L', 'V'],
        Instruction::Cmp => ['C', 'M', 'P'],
        Instruction::Cpx => ['C', 'P', 'X'],
        Instruction::Cpy => ['C', 'P', 'Y'],
        Instruction::Dec => ['D', 'E', 'C'],
        Instruction::Dex => ['D', 'E', 'X'],
        Instruction::Dey => ['D', 'E', 'Y'],
        Instruction::Eor => ['E', 'O', 'R'],
        Instruction::Inc => ['I', 'N', 'C'],
        Instruction::Inx => ['I', 'N', 'X'],
        Instruction::Iny => ['I', 'N', 'Y'],
        Instruction::Jmp => ['J', 'M', 'P'],
        Instruction::Jsr => ['J', 'S', 'R'],
        Instruction::Lda => ['L', 'D', 'A'],
        Instruction::Ldx => ['L', 'D', 'X'],
        Instruction::Ldy => ['L', 'D', 'Y'],
        Instruction::Lsr => ['L', 'S', 'R'],
        Instruction::Nop => ['N', 'O', 'P'],
        Instruction::Ora => ['O', 'R', 'A'],
        Instruction::Pha => ['P', 'H', 'A'],
        Instruction::Php => ['P', 'H', 'P'],
        Instruction::Pla => ['P', 'L', 'A'],
        Instruction::Plp => ['P', 'L', 'P'],
        Instruction::Rol => ['R', 'O', 'L'],
        Instruction::Ror => ['R', 'O', 'R'],
        Instruction::Rti => ['R', 'T', 'I'],
        Instruction::Rts => ['R', 'T', 'S'],
        Instruction::Sbc => ['S', 'B', 'C'],
        Instruction::Sec => ['S', 'E', 'C'],
        Instruction::Sed => ['S', 'E', 'D'],
        Instruction::Sei => ['S', 'E', 'I'],
        Instruction::Sta => ['S', 'T', 'A'],
        Instruction::Stx => ['S', 'T', 'X'],
        Instruction::Sty => ['S', 'T', 'Y'],
        Instruction::Tax => ['T', 'A', 'X'],
        Instruction::Tay => ['T', 'A', 'Y'],
        Instruction::Tsx => ['T', 'S', 'X'],
        Instruction::Txa => ['T', 'X', 'A'],
        Instruction::Txs => ['T', 'X', 'S'],
        Instruction::Tya => ['T', 'Y', 'A'],
        Instruction::Lax => ['L', 'A', 'X'],
        Instruction::Sax => ['S', 'A', 'X'],
        Instruction::Dcp => ['D', 'C', 'P'],
        Instruction::Isb => ['I', 'S', 'B'],
        Instruction::Slo => ['S', 'L', 'O'],
        Instruction::Rla => ['R', 'L', 'A'],
        Instruction::Sre => ['S', 'R', 'E'],
        Instruction::Rra => ['R', 'R', 'A'],
        Instruction::Shx => ['S', 'H', 'X'],
        Instruction::Shy => ['S', 'H', 'Y'],
        Instruction::Ane => ['A', 'N', 'E'],
    };
    assert(name@ =~= spec_letters(instruction));
    name
}


impl Instruction {
    /// True for an instruction that reads its operand.
    pub open spec fn is_load(self) -> bool {
        match self {
            Instruction::Lda
            | Instruction::Ldx
            | Instruction::Ldy
            | Instruction::Lax
            | Instruction::Adc
            | Instruction::Sbc
            | Instruction::And
            | Instruction::Ora
            | Instruction::Eor
            | Instruction::Ane
            | Instruction::Bit
            | Instruction::Cmp
            | Instruction::Cpx
            | Instruction::Cpy => true,
            _ => false,
        }
    }
}

/// The processor after an instruction that reads its operand has been performed.
#[verifier::opaque]
pub open spec fn spec_perform_load(
    cpu: CpuView,
    instruction: Instruction,
    mode: AddressingMode,
    mapper_after: AnyMapper,
) -> CpuView {
    match instruction {
        Instruction::Lda => cpu.lda(mode),
        Instruction::Ldx => cpu.ldx(mode),
        Instruction::Ldy => cpu.ldy(mode),
        Instruction::Lax => cpu.lax(mode),
        Instruction::Adc => cpu.adc(mode),
        Instruction::Sbc => cpu.sbc(mode),
        Instruction::And => cpu.and(mode),
        Instruction::Ora => cpu.ora(mode),
        Instruction::Eor => cpu.eor(mode),
        Instruction::Ane => cpu.ane(mode),
        Instruction::Bit => cpu.bit(mode),
        Instruction::Cmp => cpu.cmp(mode),
        Instruction::Cpx => cpu.cpx(mode),
        Instruction::Cpy => cpu.cpy(mode),
        _ => cpu,
    }
}


fn in_load(instruction: Instruction) -> (member: bool)
    ensures
        member == instruction.is_load(),
{
    match instruction {
        Instruction::Lda
        | Instruction::Ldx
        | Instruction::Ldy
        | Instruction::Lax
        | Instruction::Adc
        | Instruction::Sbc
        | Instruction::And
        | Instruction::Ora
        | Instruction::Eor
        | Instruction::Ane
        | Instruction::Bit
        | Instruction::Cmp
        | Instruction::Cpx
        | Instruction::Cpy => true,
        _ => false,
    }
}

/// Performs an instruction that reads its operand.
fn perform_load(cpu: &mut CPU, op: &Decoded)
    requires
        old(cpu)@.bus.wf(),
        old(cpu)@.add_cycles == 0,
        op.wf(),
        op.instruction.is_load(),
    ensures
        final(cpu)@ == spec_perform_load(
            old(cpu)@,
            op.instruction,
            op.addressing_mode,
            final(cpu)@.bus.mapper,
        ),
        final(cpu)@.bus.mapper == old(cpu)@.bus.mapper,
        old(cpu)@.mapper_follows(final(cpu)@.bus.mapper),
        final(cpu)@.bus.wf(),
        final(cpu)@.add_cycles <= 3,
        op.cycle_calc_mode is Page ==> final(cpu)@.add_cycles <= 1,
{
    proof {
        reveal(spec_perform_load);
    }
    match op.instruction {
        Instruction::Lda => {
            cpu.lda(&op.addressing_mode);
            return ;
        },
        Instruction::Ldx => {
            cpu.ldx(&op.addressing_mode);
            return ;
        },
        Instruction::Ldy => {
            cpu.ldy(&op.addressing_mode);
            return ;
        },
        Instruction::Lax => {
            cpu.lax(&op.addressing_mode);
            return ;
        },
        Instruction::Adc => {
            cpu.adc(&op.addressing_mode);
            return ;
        },
        Instruction::Sbc => {
            cpu.sbc(&op.addressing_mode);
            return ;
        },
        Instruction::And => {
            cpu.and(&op.addressing_mode);
            return ;
        },
        Instruction::Ora => {
            cpu.ora(&op.addressing_mode);
            return ;
        },
        Instruction::Eor => {
            cpu.eor(&op.addressing_mode);
            return ;
        },
        Instruction::Ane => {
            cpu.ane(&op.addressing_mode);
            return ;
        },
        Instruction::Bit => {
            cpu.bit(&op.addressing_mode);
            return ;
        },
        Instruction::Cmp => {
            cpu.cmp(&op.addressing_mode);
            return ;
        },
        Instruction::Cpx => {
            cpu.cpx(&op.addressing_mode);
            return ;
        },
        Instruction::Cpy => {
            cpu.cpy(&op.addressing_mode);
            return ;
        },
        _ => {},
    }
}

impl Instruction {
    /// True for an instruction that writes its operand.
    pub open spec fn is_store(self) -> bool {
        match self {
            Instruction::Sta
            | Instruction::Stx
            | Instruction::Sty
            | Instruction::Sax
            | Instruction::Shx
            | Instruction::Shy
            | Instruction::Inc
            | Instruction::Dec => true,
            _ => false,
        }
    }
}

/// The processor after an instruction that writes its operand has been performed.
#[verifier::opaque]
pub open spec fn spec_perform_store(
    cpu: CpuView,
    instruction: Instruction,
    mode: AddressingMode,
    mapper_after: AnyMapper,
) -> CpuView {
    match instruction {
        Instruction::Sta => cpu.sta(mode, mapper_after),
        Instruction::Stx => cpu.stx(mode, mapper_after),
        Instruction::Sty => cpu.sty(mode, mapper_after),
        Instruction::Sax => cpu.sax(mode, mapper_after),
        Instruction::Shx => cpu.shx(mode, mapper_after),
        Instruction::Shy => cpu.shy(mode, mapper_after),
        Instruction::Inc => cpu.inc(mode, mapper_after),
        Instruction::Dec => cpu.dec(mode, mapper_after),
        _ => cpu,
    }
}


fn in_store(instruction: Instruction) -> (member: bool)
    ensures
        member == instruction.is_store(),
{
    match instruction {
        Instruction::Sta
        | Instruction::Stx
        | Instruction::Sty
        | Instruction::Sax
        | Instruction::Shx
        | Instruction::Shy
        | Instruction::Inc
        | Instruction::Dec => true,
        _ => false,
    }
}

/// True when `after` is the mapper as an instruction that writes its operand leaves it.
#[verifier::opaque]
pub open spec fn spec_leaves_store(
    cpu: CpuView,
    instruction: Instruction,
    mode: AddressingMode,
    after: AnyMapper,
) -> bool {
    match instruction {
        Instruction::Sta => cpu.store_leaves(mode, cpu.register_a, after),
        Instruction::Stx => cpu.store_leaves(mode, cpu.register_x, after),
        Instruction::Sty => cpu.store_leaves(mode, cpu.register_y, after),
        Instruction::Sax => cpu.store_leaves(mode, cpu.register_a & cpu.register_x, after),
        Instruction::Shx => cpu.store_leaves(
            mode,
            add8(cpu.register_x & ((cpu.operand_address(mode).1 / 256) as u8), 1),
            after,
        ),
        Instruction::Shy => cpu.store_leaves(
            mode,
            add8(cpu.register_y & ((cpu.operand_address(mode).1 / 256) as u8), 1),
            after,
        ),
        Instruction::Inc => cpu.modify_leaves(mode, add8(cpu.fetch_operand(mode).2, 1), after),
        Instruction::Dec => cpu.modify_leaves(mode, sub8(cpu.fetch_operand(mode).2, 1), after),
        _ => after == cpu.bus.mapper,
    }
}

/// Performs an instruction that writes its operand.
fn perform_store(cpu: &mut CPU, op: &Decoded)
    requires
        old(cpu)@.bus.wf(),
        old(cpu)@.add_cycles == 0,
        op.wf(),
        op.instruction.is_store(),
    ensures
        final(cpu)@ == spec_perform_store(
            old(cpu)@,
            op.instruction,
            op.addressing_mode,
            final(cpu)@.bus.mapper,
        ),
        spec_leaves_store(old(cpu)@, op.instruction, op.addressing_mode, final(cpu)@.bus.mapper),
        old(cpu)@.mapper_follows(final(cpu)@.bus.mapper),
        final(cpu)@.bus.wf(),
        final(cpu)@.add_cycles <= 3,
        op.cycle_calc_mode is Page ==> final(cpu)@.add_cycles <= 1,
{
    proof {
        reveal(spec_perform_store);
        reveal(spec_leaves_store);
    }
    match op.instruction {
        Instruction::Sta => {
            cpu.sta(&op.addressing_mode);
            return ;
        },
        Instruction::Stx => {
            cpu.stx(&op.addressing_mode);
            return ;
        },
        Instruction::Sty => {
            cpu.sty(&op.addressing_mode);
            return ;
        },
        Instruction::Sax => {
            cpu.sax(&op.addressing_mode);
            return ;
        },
        Instruction::Shx => {
            cpu.shx(&op.addressing_mode);
            return ;
        },
        Instruction::Shy => {
            cpu.shy(&op.addressing_mode);
            return ;
        },
        Instruction::Inc => {
            cpu.inc(&op.addressing_mode);
            return ;
        },
        Instruction::Dec => {
            cpu.dec(&op.addressing_mode);
            return ;
        },
        _ => {},
    }
}

impl Instruction {
    /// True for a shift or a rotate, which works on an operand in memory or, in the accumulator mode, on A.
    pub open spec fn is_shift(self) -> bool {
        match self {
            Instruction::Asl
            | Instruction::Lsr
            | Instruction::Rol
            | Instruction::Ror => true,
            _ => false,
        }
    }
}

/// The processor after a shift or a rotate, which works on an operand in memory or, in the accumulator mode, on A has been performed.
#[verifier::opaque]
pub open spec fn spec_perform_shift(
    cpu: CpuView,
    instruction: Instruction,
    mode: AddressingMode,
    mapper_after: AnyMapper,
) -> CpuView {
    match instruction {
        Instruction::Asl => cpu.asl(mode, mapper_after),
        Instruction::Lsr => cpu.lsr(mode, mapper_after),
        Instruction::Rol => cpu.rol(mode, mapper_after),
        Instruction::Ror => cpu.ror(mode, mapper_after),
        _ => cpu,
    }
}


fn in_shift(instruction: Instruction) -> (member: bool)
    ensures
        member == instruction.is_shift(),
{
    match instruction {
        Instruction::Asl
        | Instruction::Lsr
        | Instruction::Rol
        | Instruction::Ror => true,
        _ => false,
    }
}

/// True when `after` is the mapper as a shift or a rotate, which works on an operand in memory or, in the accumulator mode, on A leaves it.
#[verifier::opaque]
pub open spec fn spec_leaves_shift(
    cpu: CpuView,
    instruction: Instruction,
    mode: AddressingMode,
    after: AnyMapper,
) -> bool {
    match instruction {
        Instruction::Asl => cpu.modify_leaves(mode, doubled(cpu.shift_operand(mode).2), after),
        Instruction::Lsr => cpu.modify_leaves(mode, cpu.shift_operand(mode).2 / 2, after),
        Instruction::Rol => cpu.modify_leaves(mode, cpu.rol_result(cpu.shift_operand(mode).2), after),
        Instruction::Ror => cpu.modify_leaves(mode, cpu.ror_result(cpu.shift_operand(mode).2), after),
        _ => after == cpu.bus.mapper,
    }
}

/// Performs a shift or a rotate, which works on an operand in memory or, in the accumulator mode, on A.
fn perform_shift(cpu: &mut CPU, op: &Decoded)
    requires
        old(cpu)@.bus.wf(),
        old(cpu)@.add_cycles == 0,
        op.wf(),
        op.instruction.is_shift(),
    ensures
        final(cpu)@ == spec_perform_shift(
            old(cpu)@,
            op.instruction,
            op.addressing_mode,
            final(cpu)@.bus.mapper,
        ),
        spec_leaves_shift(old(cpu)@, op.instruction, op.addressing_mode, final(cpu)@.bus.mapper),
        old(cpu)@.mapper_follows(final(cpu)@.bus.mapper),
        final(cpu)@.bus.wf(),
        final(cpu)@.add_cycles <= 3,
        op.cycle_calc_mode is Page ==> final(cpu)@.add_cycles <= 1,
{
    proof {
        reveal(spec_perform_shift);
        reveal(spec_leaves_shift);
    }
    match op.instruction {
        Instruction::Asl => {
            cpu.asl(&op.addressing_mode);
            return ;
        },
        Instruction::Lsr => {
            cpu.lsr(&op.addressing_mode);
            return ;
        },
        Instruction::Rol => {
            cpu.rol(&op.addressing_mode);
            return ;
        },
        Instruction::Ror => {
            cpu.ror(&op.addressing_mode);
            return ;
        },
        _ => {},
    }
}

impl Instruction {
    /// True for an instruction that changes its operand and then works with it on A.
    pub open spec fn is_combined(self) -> bool {
        match self {
            Instruction::Slo
            | Instruction::Rla
            | Instruction::Sre
            | Instruction::Rra
            | Instruction::Dcp
            | Instruction::Isb => true,
            _ => false,
        }
    }
}

/// The processor after an instruction that changes its operand and then works with it on A has been performed.
#[verifier::opaque]
pub open spec fn spec_perform_combined(
    cpu: CpuView,
    instruction: Instruction,
    mode: AddressingMode,
    mapper_after: AnyMapper,
) -> CpuView {
    match instruction {
        Instruction::Slo => cpu.slo(mode, mapper_after),
        Instruction::Rla => cpu.rla(mode, mapper_after),
        Instruction::Sre => cpu.sre(mode, mapper_after),
        Instruction::Rra => cpu.rra(mode, mapper_after),
        Instruction::Dcp => cpu.dcp(mode, mapper_after),
        Instruction::Isb => cpu.isb(mode, mapper_after),
        _ => cpu,
    }
}


fn in_combined(instruction: Instruction) -> (member: bool)
    ensures
        member == instruction.is_combined(),
{
    match instruction {
        Instruction::Slo
        | Instruction::Rla
        | Instruction::Sre
        | Instruction::Rra
        | Instruction::Dcp
        | Instruction::Isb => true,
        _ => false,
    }
}

/// True when `after` is the mapper as an instruction that changes its operand and then works with it on A leaves it.
#[verifier::opaque]
pub open spec fn spec_leaves_combined(
    cpu: CpuView,
    instruction: Instruction,
    mode: AddressingMode,
    after: AnyMapper,
) -> bool {
    match instruction {
        Instruction::Slo => cpu.modify_leaves(mode, doubled(cpu.shift_operand(mode).2), after),
        Instruction::Rla => cpu.modify_leaves(mode, cpu.rol_result(cpu.shift_operand(mode).2), after),
        Instruction::Sre => cpu.modify_leaves(mode, cpu.shift_operand(mode).2 / 2, after),
        Instruction::Rra => cpu.modify_leaves(mode, cpu.ror_result(cpu.shift_operand(mode).2), after),
        Instruction::Dcp => cpu.modify_leaves(mode, sub8(cpu.fetch_operand(mode).2, 1), after),
        Instruction::Isb => cpu.modify_leaves(mode, add8(cpu.fetch_operand(mode).2, 1), after),
        _ => after == cpu.bus.mapper,
    }
}

/// Performs an instruction that changes its operand and then works with it on A.
fn perform_combined(cpu: &mut CPU, op: &Decoded)
    requires
        old(cpu)@.bus.wf(),
        old(cpu)@.add_cycles == 0,
        op.wf(),
        op.instruction.is_combined(),
    ensures
        final(cpu)@ == spec_perform_combined(
            old(cpu)@,
            op.instruction,
            op.addressing_mode,
            final(cpu)@.bus.mapper,
        ),
        spec_leaves_combined(old(cpu)@, op.instruction, op.addressing_mode, final(cpu)@.bus.mapper),
        old(cpu)@.mapper_follows(final(cpu)@.bus.mapper),
        final(cpu)@.bus.wf(),
        final(cpu)@.add_cycles <= 3,
        op.cycle_calc_mode is Page ==> final(cpu)@.add_cycles <= 1,
{
    proof {
        reveal(spec_perform_combined);
        reveal(spec_leaves_combined);
    }
    match op.instruction {
        Instruction::Slo => {
            cpu.slo(&op.addressing_mode);
            return ;
        },
        Instruction::Rla => {
            cpu.rla(&op.addressing_mode);
            return ;
        },
        Instruction::Sre => {
            cpu.sre(&op.addressing_mode);
            return ;
        },
        Instruction::Rra => {
            cpu.rra(&op.addressing_mode);
            return ;
        },
        Instruction::Dcp => {
            cpu.dcp(&op.addressing_mode);
            return ;
        },
        Instruction::Isb => {
            cpu.isb(&op.addressing_mode);
            return ;
        },
        _ => {},
    }
}

impl Instruction {
    /// True for a jump, a return or a branch.
    pub open spec fn is_flow(self) -> bool {
        match self {
            Instruction::Jmp
            | Instruction::Jsr
            | Instruction::Rts
            | Instruction::Rti
            | Instruction::Brk
            | Instruction::Bcc
            | Instruction::Bcs
            | Instruction::Beq
            | Instruction::Bmi
            | Instruction::Bne
            | Instruction::Bpl
            | Instruction::Bvc
            | Instruction::Bvs => true,
            _ => false,
        }
    }
}

/// The processor after a jump, a return or a branch has been performed.
#[verifier::opaque]
pub open spec fn spec_perform_flow(
    cpu: CpuView,
    instruction: Instruction,
    mode: AddressingMode,
    mapper_after: AnyMapper,
) -> CpuView {
    match instruction {
        Instruction::Jmp => cpu.jmp(mode),
        Instruction::Jsr => cpu.jsr(mode),
        Instruction::Rts => cpu.rts(),
        Instruction::Rti => cpu.rti(),
        Instruction::Brk => cpu.brk(),
        Instruction::Bcc => cpu.branch(mode, FLAG_CARRY, false),
        Instruction::Bcs => cpu.branch(mode, FLAG_CARRY, true),
        Instruction::Beq => cpu.branch(mode, FLAG_ZERO, true),
        Instruction::Bmi => cpu.branch(mode, FLAG_NEGATIVE, true),
        Instruction::Bne => cpu.branch(mode, FLAG_ZERO, false),
        Instruction::Bpl => cpu.branch(mode, FLAG_NEGATIVE, false),
        Instruction::Bvc => cpu.branch(mode, FLAG_OVERFLOW, false),
        Instruction::Bvs => cpu.branch(mode, FLAG_OVERFLOW, true),
        _ => cpu,
    }
}


fn in_flow(instruction: Instruction) -> (member: bool)
    ensures
        member == instruction.is_flow(),
{
    match instruction {
        Instruction::Jmp
        | Instruction::Jsr
        | Instruction::Rts
        | Instruction::Rti
        | Instruction::Brk
        | Instruction::Bcc
        | Instruction::Bcs
        | Instruction::Beq
        | Instruction::Bmi
        | Instruction::Bne
        | Instruction::Bpl
        | Instruction::Bvc
        | Instruction::Bvs => true,
        _ => false,
    }
}

/// Performs a jump, a return or a branch.
fn perform_flow(cpu: &mut CPU, op: &Decoded)
    requires
        old(cpu)@.bus.wf(),
        old(cpu)@.add_cycles == 0,
        op.wf(),
        op.instruction.is_flow(),
    ensures
        final(cpu)@ == spec_perform_flow(
            old(cpu)@,
            op.instruction,
            op.addressing_mode,
            final(cpu)@.bus.mapper,
        ),
        final(cpu)@.bus.mapper == old(cpu)@.bus.mapper,
        old(cpu)@.mapper_follows(final(cpu)@.bus.mapper),
        final(cpu)@.bus.wf(),
        final(cpu)@.add_cycles <= 3,
        op.cycle_calc_mode is Page ==> final(cpu)@.add_cycles <= 1,
{
    proof {
        reveal(spec_perform_flow);
    }
    match op.instruction {
        Instruction::Jmp => {
            cpu.jmp(&op.addressing_mode);
            return ;
        },
        Instruction::Jsr => {
            cpu.jsr(&op.addressing_mode);
            return ;
        },
        Instruction::Rts => {
            cpu.rts(&op.addressing_mode);
            return ;
        },
        Instruction::Rti => {
            cpu.rti(&op.addressing_mode);
            return ;
        },
        Instruction::Brk => {
            cpu.brk(&op.addressing_mode);
            return ;
        },
        Instruction::Bcc => {
            cpu.bcc(&op.addressing_mode);
            return ;
        },
        Instruction::Bcs => {
            cpu.bcs(&op.addressing_mode);
            return ;
        },
        Instruction::Beq => {
            cpu.beq(&op.addressing_mode);
            return ;
        },
        Instruction::Bmi => {
            cpu.bmi(&op.addressing_mode);
            return ;
        },
        Instruction::Bne => {
            cpu.bne(&op.addressing_mode);
            return ;
        },
        Instruction::Bpl => {
            cpu.bpl(&op.addressing_mode);
            return ;
        },
        Instruction::Bvc => {
            cpu.bvc(&op.addressing_mode);
            return ;
        },
        Instruction::Bvs => {
            cpu.bvs(&op.addressing_mode);
            return ;
        },
        _ => {},
    }
}

impl Instruction {
    /// True for an instruction that works on registers or the stack.
    pub open spec fn is_register(self) -> bool {
        match self {
            Instruction::Dex
            | Instruction::Dey
            | Instruction::Inx
            | Instruction::Iny
            | Instruction::Pha
            | Instruction::Php
            | Instruction::Pla
            | Instruction::Plp
            | Instruction::Tax
            | Instruction::Tay
            | Instruction::Tsx
            | Instruction::Txa
            | Instruction::Txs
            | Instruction::Tya => true,
            _ => false,
        }
    }
}

/// The processor after an instruction that works on registers or the stack has been performed.
#[verifier::opaque]
pub open spec fn spec_perform_register(
    cpu: CpuView,
    instruction: Instruction,
    mode: AddressingMode,
    mapper_after: AnyMapper,
) -> CpuView {
    match instruction {
        Instruction::Dex => cpu.dex(),
        Instruction::Dey => cpu.dey(),
        Instruction::Inx => cpu.inx(),
        Instruction::Iny => cpu.iny(),
        Instruction::Pha => cpu.pha(),
        Instruction::Php => cpu.php(),
        Instruction::Pla => cpu.pla(),
        Instruction::Plp => cpu.plp(),
        Instruction::Tax => cpu.tax(),
        Instruction::Tay => cpu.tay(),
        Instruction::Tsx => cpu.tsx(),
        Instruction::Txa => cpu.txa(),
        Instruction::Txs => cpu.txs(),
        Instruction::Tya => cpu.tya(),
        _ => cpu,
    }
}


fn in_register(instruction: Instruction) -> (member: bool)
    ensures
        member == instruction.is_register(),
{
    match instruction {
        Instruction::Dex
        | Instruction::Dey
        | Instruction::Inx
        | Instruction::Iny
        | Instruction::Pha
        | Instruction::Php
        | Instruction::Pla
        | Instruction::Plp
        | Instruction::Tax
        | Instruction::Tay
        | Instruction::Tsx
        | Instruction::Txa
        | Instruction::Txs
        | Instruction::Tya => true,
        _ => false,
    }
}

/// Performs an instruction that works on registers or the stack.
fn perform_register(cpu: &mut CPU, op: &Decoded)
    requires
        old(cpu)@.bus.wf(),
        old(cpu)@.add_cycles == 0,
        op.wf(),
        op.instruction.is_register(),
    ensures
        final(cpu)@ == spec_perform_register(
            old(cpu)@,
            op.instruction,
            op.addressing_mode,
            final(cpu)@.bus.mapper,
        ),
        final(cpu)@.bus.mapper == old(cpu)@.bus.mapper,
        old(cpu)@.mapper_follows(final(cpu)@.bus.mapper),
        final(cpu)@.bus.wf(),
        final(cpu)@.add_cycles <= 3,
        op.cycle_calc_mode is Page ==> final(cpu)@.add_cycles <= 1,
{
    proof {
        reveal(spec_perform_register);
    }
    match op.instruction {
        Instruction::Dex => {
            cpu.dex(&op.addressing_mode);
            return ;
        },
        Instruction::Dey => {
            cpu.dey(&op.addressing_mode);
            return ;
        },
        Instruction::Inx => {
            cpu.inx(&op.addressing_mode);
            return ;
        },
        Instruction::Iny => {
            cpu.iny(&op.addressing_mode);
            return ;
        },
        Instruction::Pha => {
            cpu.pha(&op.addressing_mode);
            return ;
        },
        Instruction::Php => {
            cpu.php(&op.addressing_mode);
            return ;
        },
        Instruction::Pla => {
            cpu.pla(&op.addressing_mode);
            return ;
        },
        Instruction::Plp => {
            cpu.plp(&op.addressing_mode);
            return ;
        },
        Instruction::Tax => {
            cpu.tax(&op.addressing_mode);
            return ;
        },
        Instruction::Tay => {
            cpu.tay(&op.addressing_mode);
            return ;
        },
        Instruction::Tsx => {
            cpu.tsx(&op.addressing_mode);
            return ;
        },
        Instruction::Txa => {
            cpu.txa(&op.addressing_mode);
            return ;
        },
        Instruction::Txs => {
            cpu.txs(&op.addressing_mode);
            return ;
        },
        Instruction::Tya => {
            cpu.tya(&op.addressing_mode);
            return ;
        },
        _ => {},
    }
}

impl Instruction {
    /// True for an instruction that sets or clears a flag, or does nothing.
    pub open spec fn is_flag(self) -> bool {
        match self {
            Instruction::Clc
            | Instruction::Cld
            | Instruction::Cli
            | Instruction::Clv
            | Instruction::Sec
            | Instruction::Sed
            | Instruction::Sei
            | Instruction::Nop => true,
            _ => false,
        }
    }
}

/// The processor after an instruction that sets or clears a flag, or does nothing has been performed.
#[verifier::opaque]
pub open spec fn spec_perform_flag(
    cpu: CpuView,
    instruction: Instruction,
    mode: AddressingMode,
    mapper_after: AnyMapper,
) -> CpuView {
    match instruction {
        Instruction::Clc => cpu.flagged(FLAG_CARRY, false),
        Instruction::Cld => cpu.flagged(FLAG_DECIMAL, false),
        Instruction::Cli => cpu.flagged(FLAG_INTERRRUPT, false),
        Instruction::Clv => cpu.flagged(FLAG_OVERFLOW, false),
        Instruction::Sec => cpu.flagged(FLAG_CARRY, true),
        Instruction::Sed => cpu.flagged(FLAG_DECIMAL, true),
        Instruction::Sei => cpu.flagged(FLAG_INTERRRUPT, true),
        Instruction::Nop => cpu,
        _ => cpu,
    }
}


fn in_flag(instruction: Instruction) -> (member: bool)
    ensures
        member == instruction.is_flag(),
{
    match instruction {
        Instruction::Clc
        | Instruction::Cld
        | Instruction::Cli
        | Instruction::Clv
        | Instruction::Sec
        | Instruction::Sed
        | Instruction::Sei
        | Instruction::Nop => true,
        _ => false,
    }
}

/// Performs an instruction that sets or clears a flag, or does nothing.
fn perform_flag(cpu: &mut CPU, op: &Decoded)
    requires
        old(cpu)@.bus.wf(),
        old(cpu)@.add_cycles == 0,
        op.wf(),
    ensures
        final(cpu)@ == spec_perform_flag(
            old(cpu)@,
            op.instruction,
            op.addressing_mode,
            final(cpu)@.bus.mapper,
        ),
        final(cpu)@.bus.mapper == old(cpu)@.bus.mapper,
        old(cpu)@.mapper_follows(final(cpu)@.bus.mapper),
        final(cpu)@.bus.wf(),
        final(cpu)@.add_cycles <= 3,
        op.cycle_calc_mode is Page ==> final(cpu)@.add_cycles <= 1,
{
    proof {
        reveal(spec_perform_flag);
    }
    match op.instruction {
        Instruction::Clc => {
            cpu.clc(&op.addressing_mode);
            return ;
        },
        Instruction::Cld => {
            cpu.cld(&op.addressing_mode);
            return ;
        },
        Instruction::Cli => {
            cpu.cli(&op.addressing_mode);
            return ;
        },
        Instruction::Clv => {
            cpu.clv(&op.addressing_mode);
            return ;
        },
        Instruction::Sec => {
            cpu.sec(&op.addressing_mode);
            return ;
        },
        Instruction::Sed => {
            cpu.sed(&op.addressing_mode);
            return ;
        },
        Instruction::Sei => {
            cpu.sei(&op.addressing_mode);
            return ;
        },
        Instruction::Nop => {
            cpu.nop(&op.addressing_mode);
            return ;
        },
        _ => {},
    }
}

/// The processor after an instruction has been performed, before the
/// program counter moves on. `mapper_after` is the mapper as the
/// instruction leaves it.
pub open spec fn spec_perform(
    cpu: CpuView,
    instruction: Instruction,
    mode: AddressingMode,
    mapper_after: AnyMapper,
) -> CpuView {
    if instruction.is_load() {
        spec_perform_load(cpu, instruction, mode, mapper_after)
    } else if instruction.is_store() {
        spec_perform_store(cpu, instruction, mode, mapper_after)
    } else if instruction.is_shift() {
        spec_perform_shift(cpu, instruction, mode, mapper_after)
    } else if instruction.is_combined() {
        spec_perform_combined(cpu, instruction, mode, mapper_after)
    } else if instruction.is_flow() {
        spec_perform_flow(cpu, instruction, mode, mapper_after)
    } else if instruction.is_register() {
        spec_perform_register(cpu, instruction, mode, mapper_after)
    } else {
        spec_perform_flag(cpu, instruction, mode, mapper_after)
    }
}

/// True when `after` is the mapper as an instruction leaves it: an
/// instruction that writes to memory leaves it as its one write does, any
/// other as it was.
pub open spec fn spec_leaves(
    cpu: CpuView,
    instruction: Instruction,
    mode: AddressingMode,
    after: AnyMapper,
) -> bool {
    if instruction.is_load() {
        after == cpu.bus.mapper
    } else if instruction.is_store() {
        spec_leaves_store(cpu, instruction, mode, after)
    } else if instruction.is_shift() {
        spec_leaves_shift(cpu, instruction, mode, after)
    } else if instruction.is_combined() {
        spec_leaves_combined(cpu, instruction, mode, after)
    } else {
        after == cpu.bus.mapper
    }
}

/// The processor after a decoded instruction whose operand bytes begin at
/// the program counter: the instruction is performed, and the program
/// counter moves on over the operand bytes.
pub open spec fn spec_call(cpu: CpuView, op: Decoded, mapper_after: AnyMapper) -> CpuView {
    let performed = spec_perform(cpu, op.instruction, op.addressing_mode, mapper_after);
    CpuView { program_counter: add16(performed.program_counter, op.bytes - 1), ..performed }
}

/// Performs a decoded instruction.
fn perform(cpu: &mut CPU, op: &Decoded)
    requires
        old(cpu)@.bus.wf(),
        old(cpu)@.add_cycles == 0,
        op.wf(),
    ensures
        final(cpu)@ == spec_perform(
            old(cpu)@,
            op.instruction,
            op.addressing_mode,
            final(cpu)@.bus.mapper,
        ),
        spec_leaves(old(cpu)@, op.instruction, op.addressing_mode, final(cpu)@.bus.mapper),
        old(cpu)@.mapper_follows(final(cpu)@.bus.mapper),
        final(cpu)@.bus.wf(),
        final(cpu)@.add_cycles <= 3,
        op.cycle_calc_mode is Page ==> final(cpu)@.add_cycles <= 1,
{
    if in_load(op.instruction) {
        perform_load(cpu, op);
        return ;
    }
    if in_store(op.instruction) {
        perform_store(cpu, op);
        return ;
    }
    if in_shift(op.instruction) {
        perform_shift(cpu, op);
        return ;
    }
    if in_combined(op.instruction) {
        perform_combined(cpu, op);
        return ;
    }
    if in_flow(op.instruction) {
        perform_flow(cpu, op);
        return ;
    }
    if in_register(op.instruction) {
        perform_register(cpu, op);
        return ;
    }

    perform_flag(cpu, op);
}

/// Performs a decoded instruction and moves the program counter on to the
/// next.
pub fn call(cpu: &mut CPU, op: &Decoded)
    requires
        old(cpu)@.bus.wf(),
        old(cpu)@.add_cycles == 0,
        op.wf(),
    ensures
        final(cpu)@ == spec_call(old(cpu)@, *op, final(cpu)@.bus.mapper),
        spec_leaves(old(cpu)@, op.instruction, op.addressing_mode, final(cpu)@.bus.mapper),
        old(cpu)@.mapper_follows(final(cpu)@.bus.mapper),
        final(cpu)@.bus.wf(),
        final(cpu)@.add_cycles <= 3,
        op.cycle_calc_mode is Page ==> final(cpu)@.add_cycles <= 1,
{
    perform(cpu, op);
    cpu.program_counter = cpu.program_counter.wrapping_add(op.bytes - 1);
}

} // verus!
