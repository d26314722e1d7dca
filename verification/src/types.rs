//! A first table of the processor's addressing modes and instructions.
use vstd::prelude::*;

verus! {

/// How an instruction finds its operand.
#[derive(Debug, Clone, Copy, PartialEq, Eq, Structural)]
#[allow(non_camel_case_types)]
pub enum AddressingMode {
    Accumulator,
    Immidiate,
    ZeroPage,
    ZeroPage_X,
    ZeroPage_Y,
    Absolute,
    Absolute_X,
    Absolute_Y,
    Indirect_X,
    Indirect_Y,
    Relative,
    Implicit,
    NoneAddressing,
}

/// One entry of the instruction table.
pub struct OpCode {
    pub code: u8,
    pub mnemonic: String,
    pub bytes: u8,
    pub cycles: u8,
    pub addressing_mode: AddressingMode,
}

impl OpCode {
    pub fn new(
        code: u8,
        mnemonic: &str,
        bytes: u8,
        cycles: u8,
        addressing_mode: AddressingMode,
    ) -> (op: Self)
        ensures
            op.code == code,
            op.mnemonic@ == mnemonic@,
            op.bytes == bytes,
            op.cycles == cycles,
            op.addressing_mode == addressing_mode,
    {
        OpCode { code, mnemonic: mnemonic.to_owned(), bytes, cycles, addressing_mode }
    }
}

} // verus!
