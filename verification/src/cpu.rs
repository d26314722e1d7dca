//! The 6502 processor: its registers, its addressing modes and its
//! instructions, each of which works on the bus.
use vstd::prelude::*;
use crate::bus::{Bus, BusView, Mem};
use crate::opscodes::{call, decode, spec_call, spec_decode, spec_leaves, Decoded};
use crate::ppu::PpuState;
use crate::mapper::{AnyMapper, Mapper};

verus! {

/// How an instruction finds its operand.
#[derive(Debug, Clone, Copy, PartialEq, Eq, Structural)]
#[allow(non_camel_case_types)]
pub enum AddressingMode {
    /// The operand is the accumulator.
    Accumulator,
    /// The operand follows the instruction.
    Immediate,
    /// The operand's address in page 0 follows the instruction.
    ZeroPage,
    ZeroPage_X,
    ZeroPage_Y,
    /// The operand's address follows the instruction.
    Absolute,
    Absolute_X,
    Absolute_Y,
    /// The address of the operand's address follows the instruction.
    Indirect,
    Indirect_X,
    Indirect_Y,
    /// A signed offset from the program counter follows the instruction.
    Relative,
    /// The instruction has no operand.
    Implied,
    NoneAddressing,
}

impl AddressingMode {
    /// True for the modes that give an operand an address.
    pub open spec fn has_address(self) -> bool {
        !(self is Accumulator || self is Implied || self is NoneAddressing)
    }
}

/// How the cycles of an instruction depend on its operand's address.
#[derive(Debug, Clone, Copy, PartialEq, Eq, Structural)]
#[allow(non_camel_case_types)]
pub enum CycleCalcMode {
    /// Always the same.
    Fixed,
    /// One more when the address crosses a page.
    Page,
    /// One more when a branch is taken, and one more when it crosses a page.
    Branch,
}

/// One entry of the instruction table.
#[derive(Debug, Clone)]
pub struct OpCode {
    pub code: u8,
    pub mnemonic: String,
    /// The instruction's length in bytes.
    pub bytes: u16,
    pub cycles: u8,
    pub cycle_calc_mode: CycleCalcMode,
    pub addressing_mode: AddressingMode,
}

impl OpCode {
    pub fn new(
        code: u8,
        mnemonic: &str,
        bytes: u16,
        cycles: u8,
        cycle_calc_mode: CycleCalcMode,
        addressing_mode: AddressingMode,
    ) -> (op: Self)
        ensures
            op.code == code,
            op.mnemonic@ == mnemonic@,
            op.bytes == bytes,
            op.cycles == cycles,
            op.cycle_calc_mode == cycle_calc_mode,
            op.addressing_mode == addressing_mode,
    {
        OpCode {
            code,
            mnemonic: mnemonic.to_owned(),
            bytes,
            cycles,
            cycle_calc_mode,
            addressing_mode,
        }
    }
}

pub const FLAG_CARRY: u8 = 0b0000_0001;

pub const FLAG_ZERO: u8 = 0b0000_0010;

pub const FLAG_INTERRRUPT: u8 = 0b0000_0100;

pub const FLAG_DECIMAL: u8 = 0b0000_1000;

pub const FLAG_BREAK: u8 = 0b0001_0000;

pub const FLAG_BREAK2: u8 = 0b0010_0000;

pub const FLAG_OVERFLOW: u8 = 0b0100_0000;

pub const FLAG_NEGATIVE: u8 = 0b1000_0000;

pub const SIGN_BIT: u8 = 0b1000_0000;

/// Where the stack lies: page 1.
pub const STACK: u16 = 0x0100;

/// The status register at power-on and after a reset.
pub const STATUS_RESET: u8 = 0b0010_0100;

/// The stack pointer at power-on and after a reset.
pub const STACK_RESET: u8 = 0xFD;

/// Where the processor finds the address of its interrupt routines.
pub const NMI_VECTOR: u16 = 0xFFFA;

pub const RESET_VECTOR: u16 = 0xFFFC;

pub const IRQ_VECTOR: u16 = 0xFFFE;

/// The most extra cycles that the processor counts up before an
/// instruction begins.
pub const ADD_CYCLES_LIMIT: u8 = 100;

/// The status with a flag set or cleared.
pub open spec fn with_flag(status: u8, flag: u8, on: bool) -> u8 {
    if on {
        status | flag
    } else {
        status & !flag
    }
}

/// The status with the zero flag telling whether `result` is 0 and the
/// negative flag holding its bit 7.
pub open spec fn with_zero_and_negative(status: u8, result: u8) -> u8 {
    with_flag(with_flag(status, FLAG_ZERO, result == 0), FLAG_NEGATIVE, result & 0x80 != 0)
}

/// The sum of two bytes, wrapped into a byte.
pub open spec fn add8(a: u8, b: u8) -> u8 {
    ((a + b) % 256) as u8
}

/// The difference of two bytes, wrapped into a byte.
pub open spec fn sub8(a: u8, b: u8) -> u8 {
    ((a - b) % 256) as u8
}

/// The sum of an address and an offset, wrapped into 16 bits.
pub open spec fn add16(a: u16, b: int) -> u16 {
    ((a + b) % 0x10000) as u16
}

/// The two bytes of a word, low byte first.
pub open spec fn word(lo: u8, hi: u8) -> u16 {
    (hi * 256 + lo) as u16
}

/// The value of a byte as a signed offset.
pub open spec fn signed(byte: u8) -> int {
    if byte < 0x80 {
        byte as int
    } else {
        byte - 0x100
    }
}

/// Where the second byte of a word lies. The word at $00FF and the one at
/// $02FF do not cross the page: their second byte is the page's first.
pub open spec fn second_byte(pos: u16) -> u16 {
    if pos == 0xFF || pos == 0x02FF {
        (pos - 0xFF) as u16
    } else {
        add16(pos, 1)
    }
}

/// What joining and splitting the bytes of a word amounts to.
pub proof fn lemma_word_bytes(lo: u8, hi: u8, value: u16)
    by (bit_vector)
    ensures
        ((hi as u16) << 8) | (lo as u16) == hi as u16 * 256 + lo as u16,
        ((value >> 8) as u8) as u16 == value / 256,
        ((value & 0x00FF) as u8) as u16 == value % 256,
        lo & 0x01 <= 1,
{
}

/// The processor as a value: its registers and the bus as a value.
pub struct CpuView {
    pub register_a: u8,
    pub register_x: u8,
    pub register_y: u8,
    pub status: u8,
    pub program_counter: u16,
    pub stack_pointer: u8,
    pub bus: BusView,
    pub add_cycles: u8,
}

/// The processor with the bus that it works on.
pub struct CPU {
    pub register_a: u8,
    pub register_x: u8,
    pub register_y: u8,
    pub status: u8,
    pub program_counter: u16,
    pub stack_pointer: u8,
    pub bus: Bus,
    /// The extra cycles that the current instruction has run up.
    pub add_cycles: u8,
}

impl View for CPU {
    type V = CpuView;

    open spec fn view(&self) -> CpuView {
        CpuView {
            register_a: self.register_a,
            register_x: self.register_x,
            register_y: self.register_y,
            status: self.status,
            program_counter: self.program_counter,
            stack_pointer: self.stack_pointer,
            bus: self.bus@,
            add_cycles: self.add_cycles,
        }
    }
}

impl CpuView {
    pub open spec fn wf(self) -> bool {
        self.bus.wf() && self.add_cycles <= ADD_CYCLES_LIMIT
    }

    /// True when `after` can be the mapper once the processor has moved on
    /// from this state.
    pub open spec fn mapper_follows(self, after: AnyMapper) -> bool {
        BusView::mapper_follows(self.bus.mapper, after)
    }

    /// A read from the bus and what it returns.
    pub open spec fn read(self, addr: u16) -> (Self, u8) {
        (CpuView { bus: self.bus.mem_read(addr).0, ..self }, self.bus.mem_read(addr).1)
    }

    /// A write to the bus, where `mapper_after` is the mapper as a write to
    /// the cartridge leaves it.
    pub open spec fn write(self, addr: u16, data: u8, mapper_after: AnyMapper) -> Self {
        CpuView { bus: self.bus.mem_write(addr, data, mapper_after), ..self }
    }

    /// A read of a word, low byte first.
    pub open spec fn read_u16(self, pos: u16) -> (Self, u16) {
        let (first, lo) = self.read(pos);
        let (second, hi) = first.read(second_byte(pos));
        (second, word(lo, hi))
    }

    /// True when `after` is the processor after a write of a word, low
    /// byte first, between whose two writes the mapper is `between`.
    pub open spec fn wrote_u16_through(
        self,
        pos: u16,
        data: u16,
        between: AnyMapper,
        after: Self,
    ) -> bool {
        let first = self.write(pos, (data % 256) as u8, between);
        &&& self.bus.write_leaves(pos, (data % 256) as u8, between)
        &&& first.bus.write_leaves(add16(pos, 1), (data / 256) as u8, after.bus.mapper)
        &&& after == first.write(add16(pos, 1), (data / 256) as u8, after.bus.mapper)
    }

    /// True when `after` is the processor after a write of a word, low
    /// byte first.
    pub open spec fn wrote_u16(self, pos: u16, data: u16, after: Self) -> bool {
        exists|between: AnyMapper| self.wrote_u16_through(pos, data, between, after)
    }

    /// The processor with one more extra cycle if two addresses lie in
    /// different pages.
    pub open spec fn with_page_cross(self, base: u16, addr: u16) -> Self {
        if base & 0xFF00 != addr & 0xFF00 {
            CpuView { add_cycles: (self.add_cycles + 1) as u8, ..self }
        } else {
            self
        }
    }

    /// The address of an operand in page 0: the byte at the program
    /// counter plus an index, wrapped into the page.
    pub open spec fn zero_page_indexed(self, index: u8) -> (Self, u16) {
        let (after, pos) = self.read(self.program_counter);
        (after, add8(pos, index) as u16)
    }

    /// The address of an operand by an absolute address plus an index,
    /// which costs an extra cycle where it leaves the page.
    pub open spec fn absolute_indexed(self, index: u8) -> (Self, u16) {
        let (after, base) = self.read_u16(self.program_counter);
        let addr = add16(base, index as int);
        (after.with_page_cross(base, addr), addr)
    }

    /// The address that is found at the absolute address.
    pub open spec fn indirect(self) -> (Self, u16) {
        let (after, base) = self.read_u16(self.program_counter);
        after.read_u16(base)
    }

    /// The address that is found in page 0 at the byte at the program
    /// counter plus X.
    pub open spec fn indirect_x(self) -> (Self, u16) {
        let (after, base) = self.read(self.program_counter);
        after.read_u16(add8(base, self.register_x) as u16)
    }

    /// The address that is found in page 0 at the byte at the program
    /// counter, plus Y, which costs an extra cycle where it leaves the page.
    pub open spec fn indirect_y(self) -> (Self, u16) {
        let (after, base) = self.read(self.program_counter);
        let (last, deref_base) = after.read_u16(base as u16);
        let deref = add16(deref_base, self.register_y as int);
        (last.with_page_cross(deref_base, deref), deref)
    }

    /// The program counter plus the signed byte that it points at.
    pub open spec fn relative(self) -> (Self, u16) {
        let (after, base) = self.read(self.program_counter);
        (after, add16(self.program_counter, signed(base)))
    }

    /// The address of the operand of the instruction whose operand bytes
    /// begin at the program counter, and the processor after it has found
    /// the address.
    pub open spec fn operand_address(self, mode: AddressingMode) -> (Self, u16) {
        match mode {
            AddressingMode::Immediate => (self, self.program_counter),
            AddressingMode::ZeroPage => self.zero_page_indexed(0),
            AddressingMode::Absolute => self.read_u16(self.program_counter),
            AddressingMode::ZeroPage_X => self.zero_page_indexed(self.register_x),
            AddressingMode::ZeroPage_Y => self.zero_page_indexed(self.register_y),
            AddressingMode::Absolute_X => self.absolute_indexed(self.register_x),
            AddressingMode::Absolute_Y => self.absolute_indexed(self.register_y),
            AddressingMode::Indirect => self.indirect(),
            AddressingMode::Indirect_X => self.indirect_x(),
            AddressingMode::Indirect_Y => self.indirect_y(),
            AddressingMode::Relative => self.relative(),
            _ => (self, 0),
        }
    }

    /// The operand of the instruction, read through its address.
    pub open spec fn operand(self, mode: AddressingMode) -> (Self, u8) {
        let (found, addr) = self.operand_address(mode);
        found.read(addr)
    }

    /// The processor with the zero and the negative flag set by a result.
    pub open spec fn with_result(self, result: u8) -> Self {
        CpuView { status: with_zero_and_negative(self.status, result), ..self }
    }

    /// The processor after a byte has gone onto the stack.
    pub open spec fn push(self, value: u8) -> Self {
        CpuView {
            bus: self.bus.mem_write((STACK + self.stack_pointer) as u16, value, self.bus.mapper),
            stack_pointer: sub8(self.stack_pointer, 1),
            ..self
        }
    }

    /// The processor after a byte has come off the stack, and the byte.
    pub open spec fn pop(self) -> (Self, u8) {
        (CpuView { stack_pointer: add8(self.stack_pointer, 1), ..self }).read(
            (STACK + add8(self.stack_pointer, 1)) as u16,
        )
    }

    /// The processor after a word has gone onto the stack, high byte first.
    pub open spec fn push_u16(self, value: u16) -> Self {
        self.push((value / 256) as u8).push((value % 256) as u8)
    }

    /// The processor after a word has come off the stack, and the word.
    pub open spec fn pop_u16(self) -> (Self, u16) {
        let (first, lo) = self.pop();
        let (second, hi) = first.pop();
        (second, word(lo, hi))
    }
}

impl Mem for CPU {
    open spec fn mem_wf(&self) -> bool {
        self.bus@.wf()
    }

    fn mem_read(&mut self, addr: u16) -> (data: u8)
        ensures
            final(self)@ == old(self)@.read(addr).0,
            data == old(self)@.read(addr).1,
            final(self)@.bus.mapper == old(self)@.bus.mapper,
    {
        self.bus.read(addr)
    }

    fn mem_write(&mut self, addr: u16, data: u8)
        ensures
            final(self)@ == old(self)@.write(addr, data, final(self)@.bus.mapper),
            old(self)@.bus.write_leaves(addr, data, final(self)@.bus.mapper),
            old(self)@.mapper_follows(final(self)@.bus.mapper),
            !BusView::is_cartridge(crate::bus::register_address(addr)) ==> final(self)@.bus.mapper
                == old(self)@.bus.mapper,
    {
        self.bus.write(addr, data)
    }
}

impl CPU {
    /// A processor at power-on, on a bus.
    pub fn new(bus: Bus) -> (cpu: Self)
        requires
            bus@.wf(),
        ensures
            cpu@ == (CpuView {
                register_a: 0,
                register_x: 0,
                register_y: 0,
                status: STATUS_RESET,
                program_counter: 0,
                stack_pointer: STACK_RESET,
                bus: bus@,
                add_cycles: 0,
            }),
            cpu@.wf(),
    {
        CPU {
            register_a: 0,
            register_x: 0,
            register_y: 0,
            status: STATUS_RESET,
            program_counter: 0,
            stack_pointer: STACK_RESET,
            bus,
            add_cycles: 0,
        }
    }

    fn zero_page_indexed(&mut self, index: u8) -> (addr: u16)
        requires
            old(self)@.bus.wf(),
        ensures
            final(self)@ == old(self)@.zero_page_indexed(index).0,
            addr == old(self)@.zero_page_indexed(index).1,
            final(self)@.bus.wf(),
            final(self)@.bus.mapper == old(self)@.bus.mapper,
    {
        let pos = self.mem_read(self.program_counter);
        pos.wrapping_add(index) as u16
    }

    fn absolute_indexed(&mut self, index: u8) -> (addr: u16)
        requires
            old(self)@.wf(),
        ensures
            final(self)@ == old(self)@.absolute_indexed(index).0,
            addr == old(self)@.absolute_indexed(index).1,
            final(self)@.bus.wf(),
            final(self)@.bus.mapper == old(self)@.bus.mapper,
    {
        let base = self.mem_read_u16(self.program_counter);
        let addr = base.wrapping_add(index as u16);
        if base & 0xFF00 != addr & 0xFF00 {
            self.add_cycles += 1;
        }
        addr
    }

    fn indirect(&mut self) -> (addr: u16)
        requires
            old(self)@.bus.wf(),
        ensures
            final(self)@ == old(self)@.indirect().0,
            addr == old(self)@.indirect().1,
            final(self)@.bus.wf(),
            final(self)@.bus.mapper == old(self)@.bus.mapper,
    {
        let base = self.mem_read_u16(self.program_counter);
        self.mem_read_u16(base)
    }

    fn indirect_x(&mut self) -> (addr: u16)
        requires
            old(self)@.bus.wf(),
        ensures
            final(self)@ == old(self)@.indirect_x().0,
            addr == old(self)@.indirect_x().1,
            final(self)@.bus.wf(),
            final(self)@.bus.mapper == old(self)@.bus.mapper,
    {
        let base = self.mem_read(self.program_counter);
        let ptr: u8 = base.wrapping_add(self.register_x);
        self.mem_read_u16(ptr as u16)
    }

    fn indirect_y(&mut self) -> (addr: u16)
        requires
            old(self)@.wf(),
        ensures
            final(self)@ == old(self)@.indirect_y().0,
            addr == old(self)@.indirect_y().1,
            final(self)@.bus.wf(),
            final(self)@.bus.mapper == old(self)@.bus.mapper,
    {
        let base = self.mem_read(self.program_counter);
        let deref_base = self.mem_read_u16(base as u16);
        let deref = deref_base.wrapping_add(self.register_y as u16);
        if deref_base & 0xFF00 != deref & 0xFF00 {
            self.add_cycles += 1;
        }
        deref
    }

    fn relative(&mut self) -> (addr: u16)
        requires
            old(self)@.bus.wf(),
        ensures
            final(self)@ == old(self)@.relative().0,
            addr == old(self)@.relative().1,
            final(self)@.bus.wf(),
            final(self)@.bus.mapper == old(self)@.bus.mapper,
    {
        let base = self.mem_read(self.program_counter);
        if base < 0x80 {
            self.program_counter.wrapping_add(base as u16)
        } else {
            self.program_counter.wrapping_sub(0x100 - base as u16)
        }
    }

    /// Finds the address of the current instruction's operand.
    pub fn get_operand_address(&mut self, mode: &AddressingMode) -> (addr: u16)
        requires
            old(self)@.wf(),
            mode.has_address(),
        ensures
            final(self)@ == old(self)@.operand_address(*mode).0,
            addr == old(self)@.operand_address(*mode).1,
            final(self)@.bus.wf(),
            final(self)@.bus.mapper == old(self)@.bus.mapper,
            old(self)@.add_cycles <= final(self)@.add_cycles <= old(self)@.add_cycles + 1,
            final(self)@.register_a == old(self)@.register_a,
            final(self)@.register_x == old(self)@.register_x,
            final(self)@.register_y == old(self)@.register_y,
            final(self)@.status == old(self)@.status,
            final(self)@.program_counter == old(self)@.program_counter,
            final(self)@.stack_pointer == old(self)@.stack_pointer,
    {
        match mode {
            AddressingMode::Immediate => self.program_counter,
            AddressingMode::ZeroPage => self.zero_page_indexed(0),
            AddressingMode::Absolute => self.mem_read_u16(self.program_counter),
            AddressingMode::ZeroPage_X => self.zero_page_indexed(self.register_x),
            AddressingMode::ZeroPage_Y => self.zero_page_indexed(self.register_y),
            AddressingMode::Absolute_X => self.absolute_indexed(self.register_x),
            AddressingMode::Absolute_Y => self.absolute_indexed(self.register_y),
            AddressingMode::Indirect => self.indirect(),
            AddressingMode::Indirect_X => self.indirect_x(),
            AddressingMode::Indirect_Y => self.indirect_y(),
            AddressingMode::Relative => self.relative(),
            _ => 0,
        }
    }

    /// Reads the word at an address.
    pub fn mem_read_u16(&mut self, pos: u16) -> (value: u16)
        requires
            old(self)@.bus.wf(),
        ensures
            final(self)@ == old(self)@.read_u16(pos).0,
            value == old(self)@.read_u16(pos).1,
            final(self)@.bus.wf(),
            final(self)@.bus.mapper == old(self)@.bus.mapper,
    {
        if pos == 0xFF || pos == 0x02FF {
            let lo = self.mem_read(pos);
            let hi = self.mem_read(pos - 0xFF);
            proof {
                lemma_word_bytes(lo, hi, 0);
            }
            return ((hi as u16) << 8) | (lo as u16);
        }
        let lo = self.mem_read(pos);
        let hi = self.mem_read(pos.wrapping_add(1));
        proof {
            lemma_word_bytes(lo, hi, 0);
        }
        ((hi as u16) << 8) | (lo as u16)
    }

    /// Writes a word to an address, low byte first.
    pub fn mem_write_u16(&mut self, pos: u16, data: u16)
        requires
            old(self)@.bus.wf(),
        ensures
            old(self)@.wrote_u16(pos, data, final(self)@),
            final(self)@.bus.wf(),
            old(self)@.mapper_follows(final(self)@.bus.mapper),
    {
        proof {
            lemma_word_bytes(0, 0, data);
        }
        let hi = (data >> 8) as u8;
        let lo = (data & 0x00FF) as u8;
        self.mem_write(pos, lo);
        let ghost between = self@.bus.mapper;
        self.mem_write(pos.wrapping_add(1), hi);
        assert(old(self)@.wrote_u16_through(pos, data, between, self@));
    }

    /// Brings the processor into its state after a reset and loads the
    /// program counter from the reset vector.
    pub fn reset(&mut self)
        requires
            old(self)@.bus.wf(),
        ensures
            final(self)@ == (CpuView {
                register_a: 0,
                register_x: 0,
                register_y: 0,
                status: STATUS_RESET,
                stack_pointer: STACK_RESET,
                program_counter: old(self)@.read_u16(RESET_VECTOR).1,
                ..old(self)@.read_u16(RESET_VECTOR).0
            }),
            final(self)@.bus.wf(),
    {
        self.register_a = 0;
        self.register_x = 0;
        self.register_y = 0;
        self.status = STATUS_RESET;
        self.stack_pointer = STACK_RESET;
        self.program_counter = self.mem_read_u16(0xFFFC);
    }

    /// Sets the zero and the negative flag by a result.
    pub fn update_zero_and_negative_flags(&mut self, result: u8)
        ensures
            final(self)@ == old(self)@.with_result(result),
    {
        self.status = if result == 0 {
            self.status | FLAG_ZERO
        } else {
            self.status & !FLAG_ZERO
        };
        self.status = if result & 0x80 != 0 {
            self.status | FLAG_NEGATIVE
        } else {
            self.status & !FLAG_NEGATIVE
        }
    }

    /// Puts a byte onto the stack.
    pub fn _push(&mut self, value: u8)
        requires
            old(self)@.bus.wf(),
        ensures
            final(self)@ == old(self)@.push(value),
            final(self)@.bus.wf(),
            final(self)@.bus.mapper == old(self)@.bus.mapper,
    {
        let addr = 0x0100 + self.stack_pointer as u16;
        self.mem_write(addr, value);
        self.stack_pointer = self.stack_pointer.wrapping_sub(1);
    }

    /// Takes a byte off the stack.
    pub fn _pop(&mut self) -> (value: u8)
        requires
            old(self)@.bus.wf(),
        ensures
            final(self)@ == old(self)@.pop().0,
            value == old(self)@.pop().1,
            final(self)@.bus.wf(),
            final(self)@.bus.mapper == old(self)@.bus.mapper,
    {
        self.stack_pointer = self.stack_pointer.wrapping_add(1);
        let addr = 0x0100 + self.stack_pointer as u16;
        self.mem_read(addr)
    }

    /// Puts a word onto the stack, high byte first.
    pub fn _push_u16(&mut self, value: u16)
        requires
            old(self)@.bus.wf(),
        ensures
            final(self)@ == old(self)@.push_u16(value),
            final(self)@.bus.wf(),
            final(self)@.bus.mapper == old(self)@.bus.mapper,
    {
        proof {
            lemma_word_bytes(0, 0, value);
        }
        self._push((value >> 8) as u8);
        self._push((value & 0x00FF) as u8);
    }

    /// Takes a word off the stack, low byte first.
    pub fn _pop_u16(&mut self) -> (value: u16)
        requires
            old(self)@.bus.wf(),
        ensures
            final(self)@ == old(self)@.pop_u16().0,
            value == old(self)@.pop_u16().1,
            final(self)@.bus.wf(),
            final(self)@.bus.mapper == old(self)@.bus.mapper,
    {
        let lo = self._pop();
        let hi = self._pop();
        proof {
            lemma_word_bytes(lo, hi, 0);
        }
        ((hi as u16) << 8) | lo as u16
    }
}

/// A byte doubled, wrapped into a byte.
pub open spec fn doubled(value: u8) -> u8 {
    ((value * 2) % 256) as u8
}

/// The result of an addition with carry: the low byte of the sum.
pub open spec fn adc_result(a: u8, value: u8, carry: u8) -> u8 {
    ((a + value + carry) % 256) as u8
}

/// The result of a subtraction with borrow: the low byte of the
/// difference, where a clear carry borrows one.
pub open spec fn sbc_result(a: u8, value: u8, carry: u8) -> u8 {
    ((a - value - (1 - carry)) % 256) as u8
}

/// The status after the stack has given it back: the break flag is
/// cleared and bit 5 is set.
pub open spec fn pulled_status(value: u8) -> u8 {
    value & !FLAG_BREAK | FLAG_BREAK2
}

impl CpuView {
    /// The processor with a flag of its status set or cleared.
    pub open spec fn flagged(self, flag: u8, on: bool) -> Self {
        CpuView { status: with_flag(self.status, flag, on), ..self }
    }

    /// The carry flag as a number.
    pub open spec fn carry(self) -> u8 {
        self.status & FLAG_CARRY
    }

    #[verifier::opaque]
    pub open spec fn lda(self, mode: AddressingMode) -> Self {
        let (after, value) = self.operand(mode);
        (CpuView { register_a: value, ..after }).with_result(value)
    }

    #[verifier::opaque]
    pub open spec fn ldx(self, mode: AddressingMode) -> Self {
        let (after, value) = self.operand(mode);
        (CpuView { register_x: value, ..after }).with_result(value)
    }

    #[verifier::opaque]
    pub open spec fn ldy(self, mode: AddressingMode) -> Self {
        let (after, value) = self.operand(mode);
        (CpuView { register_y: value, ..after }).with_result(value)
    }

    /// LDA, then TAX.
    #[verifier::opaque]
    pub open spec fn lax(self, mode: AddressingMode) -> Self {
        self.lda(mode).tax()
    }

    /// A store of `value` at the operand's address.
    #[verifier::opaque]
    pub open spec fn store(self, mode: AddressingMode, value: u8, mapper_after: AnyMapper) -> Self {
        let (found, addr) = self.operand_address(mode);
        found.write(addr, value, mapper_after)
    }

    #[verifier::opaque]
    pub open spec fn sta(self, mode: AddressingMode, mapper_after: AnyMapper) -> Self {
        self.store(mode, self.register_a, mapper_after)
    }

    #[verifier::opaque]
    pub open spec fn stx(self, mode: AddressingMode, mapper_after: AnyMapper) -> Self {
        self.store(mode, self.register_x, mapper_after)
    }

    #[verifier::opaque]
    pub open spec fn sty(self, mode: AddressingMode, mapper_after: AnyMapper) -> Self {
        self.store(mode, self.register_y, mapper_after)
    }

    /// Stores A and X.
    #[verifier::opaque]
    pub open spec fn sax(self, mode: AddressingMode, mapper_after: AnyMapper) -> Self {
        self.store(mode, self.register_a & self.register_x, mapper_after)
    }

    /// A store, at the operand's address, of a register and the address's
    /// high byte, plus 1.
    #[verifier::opaque]
    pub open spec fn store_high(
        self,
        mode: AddressingMode,
        register: u8,
        mapper_after: AnyMapper,
    ) -> Self {
        let (found, addr) = self.operand_address(mode);
        found.write(addr, add8(register & ((addr / 256) as u8), 1), mapper_after)
    }

    #[verifier::opaque]
    pub open spec fn shx(self, mode: AddressingMode, mapper_after: AnyMapper) -> Self {
        self.store_high(mode, self.register_x, mapper_after)
    }

    #[verifier::opaque]
    pub open spec fn shy(self, mode: AddressingMode, mapper_after: AnyMapper) -> Self {
        self.store_high(mode, self.register_y, mapper_after)
    }

    #[verifier::opaque]
    pub open spec fn txs(self) -> Self {
        CpuView { stack_pointer: self.register_x, ..self }
    }

    #[verifier::opaque]
    pub open spec fn tsx(self) -> Self {
        (CpuView { register_x: self.stack_pointer, ..self }).with_result(self.stack_pointer)
    }

    #[verifier::opaque]
    pub open spec fn tya(self) -> Self {
        (CpuView { register_a: self.register_y, ..self }).with_result(self.register_y)
    }

    #[verifier::opaque]
    pub open spec fn tay(self) -> Self {
        (CpuView { register_y: self.register_a, ..self }).with_result(self.register_a)
    }

    #[verifier::opaque]
    pub open spec fn txa(self) -> Self {
        (CpuView { register_a: self.register_x, ..self }).with_result(self.register_x)
    }

    #[verifier::opaque]
    pub open spec fn tax(self) -> Self {
        (CpuView { register_x: self.register_a, ..self }).with_result(self.register_a)
    }

    #[verifier::opaque]
    pub open spec fn iny(self) -> Self {
        (CpuView { register_y: add8(self.register_y, 1), ..self }).with_result(
            add8(self.register_y, 1),
        )
    }

    #[verifier::opaque]
    pub open spec fn inx(self) -> Self {
        (CpuView { register_x: add8(self.register_x, 1), ..self }).with_result(
            add8(self.register_x, 1),
        )
    }

    #[verifier::opaque]
    pub open spec fn dey(self) -> Self {
        (CpuView { register_y: sub8(self.register_y, 1), ..self }).with_result(
            sub8(self.register_y, 1),
        )
    }

    #[verifier::opaque]
    pub open spec fn dex(self) -> Self {
        (CpuView { register_x: sub8(self.register_x, 1), ..self }).with_result(
            sub8(self.register_x, 1),
        )
    }

    /// The operand's address, the operand, and the processor after both
    /// are read.
    pub open spec fn fetch_operand(self, mode: AddressingMode) -> (Self, u16, u8) {
        let (found, addr) = self.operand_address(mode);
        let (after, value) = found.read(addr);
        (after, addr, value)
    }

    #[verifier::opaque]
    pub open spec fn inc(self, mode: AddressingMode, mapper_after: AnyMapper) -> Self {
        let (after, addr, value) = self.fetch_operand(mode);
        after.write(addr, add8(value, 1), mapper_after).with_result(add8(value, 1))
    }

    #[verifier::opaque]
    pub open spec fn dec(self, mode: AddressingMode, mapper_after: AnyMapper) -> Self {
        let (after, addr, value) = self.fetch_operand(mode);
        after.write(addr, sub8(value, 1), mapper_after).with_result(sub8(value, 1))
    }

    #[verifier::opaque]
    pub open spec fn ora(self, mode: AddressingMode) -> Self {
        let (after, value) = self.operand(mode);
        (CpuView { register_a: self.register_a | value, ..after }).with_result(
            self.register_a | value,
        )
    }

    #[verifier::opaque]
    pub open spec fn eor(self, mode: AddressingMode) -> Self {
        let (after, value) = self.operand(mode);
        (CpuView { register_a: self.register_a ^ value, ..after }).with_result(
            self.register_a ^ value,
        )
    }

    #[verifier::opaque]
    pub open spec fn and(self, mode: AddressingMode) -> Self {
        let (after, value) = self.operand(mode);
        (CpuView { register_a: self.register_a & value, ..after }).with_result(
            self.register_a & value,
        )
    }

    /// TXA, then AND.
    #[verifier::opaque]
    pub open spec fn ane(self, mode: AddressingMode) -> Self {
        self.txa().and(mode)
    }

    /// BIT: the zero flag tells whether A and the operand share no bit;
    /// the negative and the overflow flag are the operand's bits 7 and 6.
    #[verifier::opaque]
    pub open spec fn bit(self, mode: AddressingMode) -> Self {
        let (after, value) = self.operand(mode);
        let zeroed = with_flag(self.status, FLAG_ZERO, self.register_a & value == 0);
        CpuView {
            status: (zeroed & !(FLAG_NEGATIVE | FLAG_OVERFLOW)) | (value & (FLAG_NEGATIVE
                | FLAG_OVERFLOW)),
            ..after
        }
    }

    /// A comparison of a register with the operand: the carry flag tells
    /// whether the register is at least the operand, the zero and the
    /// negative flag are set by their difference.
    #[verifier::opaque]
    pub open spec fn compare(self, target: u8, mode: AddressingMode) -> Self {
        let (after, value) = self.operand(mode);
        after.flagged(FLAG_CARRY, target >= value).with_result(sub8(target, value))
    }

    #[verifier::opaque]
    pub open spec fn cpy(self, mode: AddressingMode) -> Self {
        self.compare(self.register_y, mode)
    }

    #[verifier::opaque]
    pub open spec fn cpx(self, mode: AddressingMode) -> Self {
        self.compare(self.register_x, mode)
    }

    /// A branch: taken when the flag is as `is_flag` says. A taken branch
    /// costs an extra cycle, and one more into another page.
    #[verifier::opaque]
    pub open spec fn branch(self, mode: AddressingMode, flag: u8, is_flag: bool) -> Self {
        let (found, addr) = self.operand_address(mode);
        if (self.status & flag != 0) == is_flag {
            CpuView {
                add_cycles: if self.program_counter & 0xFF00 != addr & 0xFF00 {
                    (found.add_cycles + 2) as u8
                } else {
                    (found.add_cycles + 1) as u8
                },
                program_counter: addr,
                ..found
            }
        } else {
            found
        }
    }

    /// JMP: the program counter is set two short of the target, as the
    /// instruction's length is added afterwards.
    #[verifier::opaque]
    pub open spec fn jmp(self, mode: AddressingMode) -> Self {
        let (found, addr) = self.operand_address(mode);
        CpuView { program_counter: add16(addr, -2), ..found }
    }

    /// JSR: the address of the instruction's last byte goes onto the stack.
    #[verifier::opaque]
    pub open spec fn jsr(self, mode: AddressingMode) -> Self {
        let (found, addr) = self.operand_address(mode);
        CpuView {
            program_counter: add16(addr, -2),
            ..found.push_u16(add16(self.program_counter, 1))
        }
    }

    #[verifier::opaque]
    pub open spec fn rts(self) -> Self {
        let (after, value) = self.pop_u16();
        CpuView { program_counter: add16(value, 1), ..after }
    }

    #[verifier::opaque]
    pub open spec fn rti(self) -> Self {
        let (first, status) = self.pop();
        let (second, pc) = first.pop_u16();
        CpuView { status: pulled_status(status), program_counter: pc, ..second }
    }

    #[verifier::opaque]
    pub open spec fn plp(self) -> Self {
        let (after, status) = self.pop();
        CpuView { status: pulled_status(status), ..after }
    }

    #[verifier::opaque]
    pub open spec fn php(self) -> Self {
        self.push(self.status | FLAG_BREAK | FLAG_BREAK2)
    }

    #[verifier::opaque]
    pub open spec fn pla(self) -> Self {
        let (after, value) = self.pop();
        (CpuView { register_a: value, ..after }).with_result(value)
    }

    #[verifier::opaque]
    pub open spec fn pha(self) -> Self {
        self.push(self.register_a)
    }

    /// An interrupt through the vector at `vector`: the return address and
    /// the status go onto the stack.
    #[verifier::opaque]
    pub open spec fn interrupt(self, return_to: u16, vector: u16) -> Self {
        let pushed = self.push_u16(return_to).push(self.status);
        let (after, target) = pushed.read_u16(vector);
        CpuView { program_counter: target, status: self.status | FLAG_BREAK, ..after }
    }

    /// BRK: an interrupt through the IRQ vector, unless the break flag is
    /// set already.
    #[verifier::opaque]
    pub open spec fn brk(self) -> Self {
        if self.status & FLAG_BREAK != 0 {
            self
        } else {
            self.interrupt(add16(self.program_counter, 1), IRQ_VECTOR)
        }
    }

    /// An interrupt request: an interrupt through the IRQ vector, unless
    /// the interrupt flag masks it.
    #[verifier::opaque]
    pub open spec fn call_irq(self) -> Self {
        if self.status & FLAG_INTERRRUPT != 0 {
            self
        } else {
            self.interrupt(self.program_counter, IRQ_VECTOR)
        }
    }

    /// A non-maskable interrupt: the return address and the status, with
    /// the break flag clear and bit 5 set, go onto the stack, the
    /// interrupt flag is set, the units run for two cycles, and the
    /// program counter is loaded from the NMI vector.
    #[verifier::opaque]
    pub open spec fn interrupt_nmi(self) -> Self {
        let pushed = self.push_u16(self.program_counter).push(
            (self.status & !FLAG_BREAK) | FLAG_BREAK2,
        );
        let ticked = CpuView {
            status: self.status | FLAG_INTERRRUPT,
            bus: pushed.bus.tick(2),
            ..pushed
        };
        let (after, target) = ticked.read_u16(NMI_VECTOR);
        CpuView { program_counter: target, ..after }
    }

    /// True when a frame becomes complete while the processor answers a
    /// non-maskable interrupt.
    pub open spec fn nmi_completes_frame(self) -> bool {
        self.push_u16(self.program_counter).push(
            (self.status & !FLAG_BREAK) | FLAG_BREAK2,
        ).bus.tick_completes_frame(2)
    }

    /// The operand of a shift or rotate: the accumulator, or the byte at
    /// the operand's address.
    pub open spec fn shift_operand(self, mode: AddressingMode) -> (Self, u16, u8) {
        if mode is Accumulator {
            (self, 0, self.register_a)
        } else {
            self.fetch_operand(mode)
        }
    }

    /// The processor after a shift or rotate has put its result where its
    /// operand was, with the bit that fell out in the carry flag.
    #[verifier::opaque]
    pub open spec fn shifted(
        self,
        mode: AddressingMode,
        result: u8,
        carry: bool,
        mapper_after: AnyMapper,
    ) -> Self {
        let (after, addr, value) = self.shift_operand(mode);
        let stored = if mode is Accumulator {
            CpuView { register_a: result, ..after }
        } else {
            after.write(addr, result, mapper_after)
        };
        stored.flagged(FLAG_CARRY, carry).with_result(result)
    }

    /// ROR: the carry flag comes in at bit 7, bit 0 goes out.
    #[verifier::opaque]
    pub open spec fn ror(self, mode: AddressingMode, mapper_after: AnyMapper) -> Self {
        let value = self.shift_operand(mode).2;
        self.shifted(mode, self.ror_result(value), value & 0x01 == 1, mapper_after)
    }

    /// ROL: the carry flag comes in at bit 0, bit 7 goes out.
    #[verifier::opaque]
    pub open spec fn rol(self, mode: AddressingMode, mapper_after: AnyMapper) -> Self {
        let value = self.shift_operand(mode).2;
        self.shifted(mode, self.rol_result(value), value >= 0x80, mapper_after)
    }

    /// LSR: bit 0 goes out.
    #[verifier::opaque]
    pub open spec fn lsr(self, mode: AddressingMode, mapper_after: AnyMapper) -> Self {
        let value = self.shift_operand(mode).2;
        self.shifted(mode, value / 2, value & 0x01 == 1, mapper_after)
    }

    /// ASL: bit 7 goes out.
    #[verifier::opaque]
    pub open spec fn asl(self, mode: AddressingMode, mapper_after: AnyMapper) -> Self {
        let value = self.shift_operand(mode).2;
        self.shifted(mode, doubled(value), value >= 0x80, mapper_after)
    }

    /// The processor after an addition or subtraction has left `result`
    /// in the accumulator.
    #[verifier::opaque]
    pub open spec fn accumulated(self, result: u8, carry: bool, overflow: bool) -> Self {
        (CpuView { register_a: result, ..self }).flagged(FLAG_CARRY, carry).flagged(
            FLAG_OVERFLOW,
            overflow,
        ).with_result(result)
    }

    /// ADC: the accumulator plus the operand plus the carry flag. The
    /// carry flag tells whether the sum left the byte, the overflow flag
    /// whether two operands of one sign gave a result of the other.
    #[verifier::opaque]
    pub open spec fn adc(self, mode: AddressingMode) -> Self {
        let (after, value) = self.operand(mode);
        let a = self.register_a;
        let n = adc_result(a, value, self.carry());
        after.accumulated(
            n,
            a + value + self.carry() > 255,
            (a & SIGN_BIT) == (value & SIGN_BIT) && (value & SIGN_BIT) != (n & SIGN_BIT),
        )
    }

    /// SBC: the accumulator minus the operand, minus one more if the carry
    /// flag is clear. The carry flag tells whether nothing was borrowed,
    /// the overflow flag whether operands of different signs gave a result
    /// of the operand's sign.
    #[verifier::opaque]
    pub open spec fn sbc(self, mode: AddressingMode) -> Self {
        let (after, value) = self.operand(mode);
        let a = self.register_a;
        let n = sbc_result(a, value, self.carry());
        after.accumulated(
            n,
            a - value - (1 - self.carry()) >= 0,
            (a & SIGN_BIT) != (value & SIGN_BIT) && (a & SIGN_BIT) != (n & SIGN_BIT),
        )
    }

    /// ROR, then ADC.
    #[verifier::opaque]
    pub open spec fn rra(self, mode: AddressingMode, mapper_after: AnyMapper) -> Self {
        self.ror(mode, mapper_after).adc(mode)
    }

    /// LSR, then EOR.
    #[verifier::opaque]
    pub open spec fn sre(self, mode: AddressingMode, mapper_after: AnyMapper) -> Self {
        self.lsr(mode, mapper_after).eor(mode)
    }

    /// ROL, then AND.
    #[verifier::opaque]
    pub open spec fn rla(self, mode: AddressingMode, mapper_after: AnyMapper) -> Self {
        self.rol(mode, mapper_after).and(mode)
    }

    /// ASL, then ORA.
    #[verifier::opaque]
    pub open spec fn slo(self, mode: AddressingMode, mapper_after: AnyMapper) -> Self {
        self.asl(mode, mapper_after).ora(mode)
    }

    /// INC, then SBC.
    #[verifier::opaque]
    pub open spec fn isb(self, mode: AddressingMode, mapper_after: AnyMapper) -> Self {
        self.inc(mode, mapper_after).sbc(mode)
    }
}

impl CPU {
    /// Loads the operand into A.
    pub fn lda(&mut self, mode: &AddressingMode)
        requires
            old(self)@.wf(),
            mode.has_address(),
        ensures
            final(self)@ == old(self)@.lda(*mode),
            final(self)@.bus.wf(),
            final(self)@.bus.mapper == old(self)@.bus.mapper,
            final(self)@.add_cycles <= old(self)@.add_cycles + 1,
    {
        proof {
            reveal(CpuView::lda);
        }
        let addr = self.get_operand_address(mode);
        let value = self.mem_read(addr);
        self.register_a = value;
        self.update_zero_and_negative_flags(self.register_a);
    }

    /// Loads the operand into X.
    pub fn ldx(&mut self, mode: &AddressingMode)
        requires
            old(self)@.wf(),
            mode.has_address(),
        ensures
            final(self)@ == old(self)@.ldx(*mode),
            final(self)@.bus.wf(),
            final(self)@.bus.mapper == old(self)@.bus.mapper,
            final(self)@.add_cycles <= old(self)@.add_cycles + 1,
    {
        proof {
            reveal(CpuView::ldx);
        }
        let addr = self.get_operand_address(mode);
        let value = self.mem_read(addr);
        self.register_x = value;
        self.update_zero_and_negative_flags(self.register_x);
    }

    /// Loads the operand into Y.
    pub fn ldy(&mut self, mode: &AddressingMode)
        requires
            old(self)@.wf(),
            mode.has_address(),
        ensures
            final(self)@ == old(self)@.ldy(*mode),
            final(self)@.bus.wf(),
            final(self)@.bus.mapper == old(self)@.bus.mapper,
            final(self)@.add_cycles <= old(self)@.add_cycles + 1,
    {
        proof {
            reveal(CpuView::ldy);
        }
        let addr = self.get_operand_address(mode);
        let value = self.mem_read(addr);
        self.register_y = value;
        self.update_zero_and_negative_flags(self.register_y);
    }

    /// Stores A at the operand's address.
    pub fn sta(&mut self, mode: &AddressingMode)
        requires
            old(self)@.wf(),
            mode.has_address(),
        ensures
            old(self)@.store_leaves(*mode, old(self)@.register_a, final(self)@.bus.mapper),
            final(self)@ == old(self)@.sta(*mode, final(self)@.bus.mapper),
            old(self)@.mapper_follows(final(self)@.bus.mapper),
            final(self)@.bus.wf(),
            final(self)@.add_cycles <= old(self)@.add_cycles + 1,
    {
        proof {
            reveal(CpuView::sta);
            reveal(CpuView::store);
        }
        let addr = self.get_operand_address(mode);
        self.mem_write(addr, self.register_a);
    }

    /// Stores X at the operand's address.
    pub fn stx(&mut self, mode: &AddressingMode)
        requires
            old(self)@.wf(),
            mode.has_address(),
        ensures
            old(self)@.store_leaves(*mode, old(self)@.register_x, final(self)@.bus.mapper),
            final(self)@ == old(self)@.stx(*mode, final(self)@.bus.mapper),
            old(self)@.mapper_follows(final(self)@.bus.mapper),
            final(self)@.bus.wf(),
            final(self)@.add_cycles <= old(self)@.add_cycles + 1,
    {
        proof {
            reveal(CpuView::stx);
            reveal(CpuView::store);
        }
        let addr = self.get_operand_address(mode);
        self.mem_write(addr, self.register_x);
    }

    /// Stores Y at the operand's address.
    pub fn sty(&mut self, mode: &AddressingMode)
        requires
            old(self)@.wf(),
            mode.has_address(),
        ensures
            old(self)@.store_leaves(*mode, old(self)@.register_y, final(self)@.bus.mapper),
            final(self)@ == old(self)@.sty(*mode, final(self)@.bus.mapper),
            old(self)@.mapper_follows(final(self)@.bus.mapper),
            final(self)@.bus.wf(),
            final(self)@.add_cycles <= old(self)@.add_cycles + 1,
    {
        proof {
            reveal(CpuView::sty);
            reveal(CpuView::store);
        }
        let addr = self.get_operand_address(mode);
        self.mem_write(addr, self.register_y);
    }

    /// Stores A and X at the operand's address.
    pub fn sax(&mut self, mode: &AddressingMode)
        requires
            old(self)@.wf(),
            mode.has_address(),
        ensures
            old(self)@.store_leaves(*mode, old(self)@.register_a & old(self)@.register_x, final(self)@.bus.mapper),
            final(self)@ == old(self)@.sax(*mode, final(self)@.bus.mapper),
            old(self)@.mapper_follows(final(self)@.bus.mapper),
            final(self)@.bus.wf(),
            final(self)@.add_cycles <= old(self)@.add_cycles + 1,
    {
        proof {
            reveal(CpuView::sax);
            reveal(CpuView::store);
        }
        let addr = self.get_operand_address(mode);
        self.mem_write(addr, self.register_a & self.register_x);
    }

    /// Stores X and the high byte of the operand's address, plus 1.
    pub fn shx(&mut self, mode: &AddressingMode)
        requires
            old(self)@.wf(),
            mode.has_address(),
        ensures
            old(self)@.store_leaves(
                *mode,
                add8(
                    old(self)@.register_x & ((old(self)@.operand_address(*mode).1 / 256) as u8),
                    1,
                ),
                final(self)@.bus.mapper,
            ),
            final(self)@ == old(self)@.shx(*mode, final(self)@.bus.mapper),
            old(self)@.mapper_follows(final(self)@.bus.mapper),
            final(self)@.bus.wf(),
            final(self)@.add_cycles <= old(self)@.add_cycles + 1,
    {
        proof {
            reveal(CpuView::shx);
            reveal(CpuView::store_high);
        }
        let addr = self.get_operand_address(mode);
        proof {
            lemma_word_bytes(0, 0, addr);
            lemma_high_byte(addr);
        }
        let hi = ((addr & 0xFF00) >> 8) as u8;
        self.mem_write(addr, (self.register_x & hi).wrapping_add(1));
    }

    /// Stores Y and the high byte of the operand's address, plus 1.
    pub fn shy(&mut self, mode: &AddressingMode)
        requires
            old(self)@.wf(),
            mode.has_address(),
        ensures
            old(self)@.store_leaves(
                *mode,
                add8(
                    old(self)@.register_y & ((old(self)@.operand_address(*mode).1 / 256) as u8),
                    1,
                ),
                final(self)@.bus.mapper,
            ),
            final(self)@ == old(self)@.shy(*mode, final(self)@.bus.mapper),
            old(self)@.mapper_follows(final(self)@.bus.mapper),
            final(self)@.bus.wf(),
            final(self)@.add_cycles <= old(self)@.add_cycles + 1,
    {
        proof {
            reveal(CpuView::shy);
            reveal(CpuView::store_high);
        }
        let addr = self.get_operand_address(mode);
        proof {
            lemma_word_bytes(0, 0, addr);
            lemma_high_byte(addr);
        }
        let hi = ((addr & 0xFF00) >> 8) as u8;
        self.mem_write(addr, (self.register_y & hi).wrapping_add(1));
    }

    /// Copies X into the stack pointer.
    pub fn txs(&mut self, _mode: &AddressingMode)
        requires
            old(self)@.bus.wf(),
        ensures
            final(self)@ == old(self)@.txs(),
            final(self)@.bus.wf(),
            final(self)@.bus.mapper == old(self)@.bus.mapper,
            final(self)@.add_cycles == old(self)@.add_cycles,
    {
        proof {
            reveal(CpuView::txs);
        }
        self.stack_pointer = self.register_x;
    }

    /// Copies the stack pointer into X.
    pub fn tsx(&mut self, _mode: &AddressingMode)
        requires
            old(self)@.bus.wf(),
        ensures
            final(self)@ == old(self)@.tsx(),
            final(self)@.bus.wf(),
            final(self)@.bus.mapper == old(self)@.bus.mapper,
            final(self)@.add_cycles == old(self)@.add_cycles,
    {
        proof {
            reveal(CpuView::tsx);
        }
        self.register_x = self.stack_pointer;
        self.update_zero_and_negative_flags(self.register_x);
    }

    /// Copies Y into A.
    pub fn tya(&mut self, _mode: &AddressingMode)
        requires
            old(self)@.bus.wf(),
        ensures
            final(self)@ == old(self)@.tya(),
            final(self)@.bus.wf(),
            final(self)@.bus.mapper == old(self)@.bus.mapper,
            final(self)@.add_cycles == old(self)@.add_cycles,
    {
        proof {
            reveal(CpuView::tya);
        }
        self.register_a = self.register_y;
        self.update_zero_and_negative_flags(self.register_a);
    }

    /// Copies A into Y.
    pub fn tay(&mut self, _mode: &AddressingMode)
        requires
            old(self)@.bus.wf(),
        ensures
            final(self)@ == old(self)@.tay(),
            final(self)@.bus.wf(),
            final(self)@.bus.mapper == old(self)@.bus.mapper,
            final(self)@.add_cycles == old(self)@.add_cycles,
    {
        proof {
            reveal(CpuView::tay);
        }
        self.register_y = self.register_a;
        self.update_zero_and_negative_flags(self.register_y);
    }

    /// Copies X into A.
    pub fn txa(&mut self, _mode: &AddressingMode)
        requires
            old(self)@.bus.wf(),
        ensures
            final(self)@ == old(self)@.txa(),
            final(self)@.bus.wf(),
            final(self)@.bus.mapper == old(self)@.bus.mapper,
            final(self)@.add_cycles == old(self)@.add_cycles,
    {
        proof {
            reveal(CpuView::txa);
        }
        self.register_a = self.register_x;
        self.update_zero_and_negative_flags(self.register_a);
    }

    /// Copies A into X.
    pub fn tax(&mut self, _mode: &AddressingMode)
        requires
            old(self)@.bus.wf(),
        ensures
            final(self)@ == old(self)@.tax(),
            final(self)@.bus.wf(),
            final(self)@.bus.mapper == old(self)@.bus.mapper,
            final(self)@.add_cycles == old(self)@.add_cycles,
    {
        proof {
            reveal(CpuView::tax);
        }
        self.register_x = self.register_a;
        self.update_zero_and_negative_flags(self.register_x);
    }

    /// Adds 1 to Y.
    pub fn iny(&mut self, _mode: &AddressingMode)
        requires
            old(self)@.bus.wf(),
        ensures
            final(self)@ == old(self)@.iny(),
            final(self)@.bus.wf(),
            final(self)@.bus.mapper == old(self)@.bus.mapper,
            final(self)@.add_cycles == old(self)@.add_cycles,
    {
        proof {
            reveal(CpuView::iny);
        }
        self.register_y = self.register_y.wrapping_add(1);
        self.update_zero_and_negative_flags(self.register_y);
    }

    /// Adds 1 to X.
    pub fn inx(&mut self, _mode: &AddressingMode)
        requires
            old(self)@.bus.wf(),
        ensures
            final(self)@ == old(self)@.inx(),
            final(self)@.bus.wf(),
            final(self)@.bus.mapper == old(self)@.bus.mapper,
            final(self)@.add_cycles == old(self)@.add_cycles,
    {
        proof {
            reveal(CpuView::inx);
        }
        self.register_x = self.register_x.wrapping_add(1);
        self.update_zero_and_negative_flags(self.register_x);
    }

    /// Takes 1 from Y.
    pub fn dey(&mut self, _mode: &AddressingMode)
        requires
            old(self)@.bus.wf(),
        ensures
            final(self)@ == old(self)@.dey(),
            final(self)@.bus.wf(),
            final(self)@.bus.mapper == old(self)@.bus.mapper,
            final(self)@.add_cycles == old(self)@.add_cycles,
    {
        proof {
            reveal(CpuView::dey);
        }
        self.register_y = self.register_y.wrapping_sub(1);
        self.update_zero_and_negative_flags(self.register_y);
    }

    /// Takes 1 from X.
    pub fn dex(&mut self, _mode: &AddressingMode)
        requires
            old(self)@.bus.wf(),
        ensures
            final(self)@ == old(self)@.dex(),
            final(self)@.bus.wf(),
            final(self)@.bus.mapper == old(self)@.bus.mapper,
            final(self)@.add_cycles == old(self)@.add_cycles,
    {
        proof {
            reveal(CpuView::dex);
        }
        self.register_x = self.register_x.wrapping_sub(1);
        self.update_zero_and_negative_flags(self.register_x);
    }

    /// Loads the operand into A and X.
    pub fn lax(&mut self, mode: &AddressingMode)
        requires
            old(self)@.wf(),
            mode.has_address(),
        ensures
            final(self)@ == old(self)@.lax(*mode),
            final(self)@.bus.wf(),
            final(self)@.bus.mapper == old(self)@.bus.mapper,
            final(self)@.add_cycles <= old(self)@.add_cycles + 1,
    {
        proof {
            reveal(CpuView::lax);
        }
        self.lda(mode);
        self.tax(mode);
    }


}
/// The high byte of an address, cut out by mask and shift.
pub proof fn lemma_high_byte(addr: u16)
    by (bit_vector)
    ensures
        (addr & 0xFF00) >> 8 == addr / 256,
        (addr & 0xFF00) >> 8 <= 255,
{
}

impl CpuView {
    /// True when `after` is the mapper as a store of `value` at the
    /// operand's address leaves it.
    pub open spec fn store_leaves(self, mode: AddressingMode, value: u8, after: AnyMapper) -> bool {
        let (found, addr) = self.operand_address(mode);
        found.bus.write_leaves(addr, value, after)
    }

    /// True when `after` is the mapper as an instruction leaves it that
    /// reads its operand and writes `result` back: in the accumulator mode
    /// the mapper as it was.
    pub open spec fn modify_leaves(self, mode: AddressingMode, result: u8, after: AnyMapper) -> bool {
        if mode is Accumulator {
            after == self.bus.mapper
        } else {
            let (read, addr, value) = self.fetch_operand(mode);
            read.bus.write_leaves(addr, result, after)
        }
    }

    /// The result of a shift or rotate of a value with a carry.
    pub open spec fn ror_result(self, value: u8) -> u8 {
        (value / 2) | (self.carry() << 7)
    }

    pub open spec fn rol_result(self, value: u8) -> u8 {
        doubled(value) | self.carry()
    }

    /// CMP: a comparison of A with the operand.
    #[verifier::opaque]
    pub open spec fn cmp(self, mode: AddressingMode) -> Self {
        self.compare(self.register_a, mode)
    }

    /// DEC, then CMP.
    #[verifier::opaque]
    pub open spec fn dcp(self, mode: AddressingMode, mapper_after: AnyMapper) -> Self {
        self.dec(mode, mapper_after).cmp(mode)
    }
}

impl CPU {
    /// Adds 1 to the operand.
    pub fn inc(&mut self, mode: &AddressingMode)
        requires
            old(self)@.wf(),
            mode.has_address(),
        ensures
            old(self)@.modify_leaves(
                *mode,
                add8(old(self)@.fetch_operand(*mode).2, 1),
                final(self)@.bus.mapper,
            ),
            final(self)@ == old(self)@.inc(*mode, final(self)@.bus.mapper),
            old(self)@.mapper_follows(final(self)@.bus.mapper),
            final(self)@.bus.wf(),
            final(self)@.add_cycles <= old(self)@.add_cycles + 1,
    {
        proof {
            reveal(CpuView::inc);
        }
        let addr = self.get_operand_address(mode);
        let value = self.mem_read(addr).wrapping_add(1);
        self.mem_write(addr, value);
        self.update_zero_and_negative_flags(value);
    }

    /// Takes 1 from the operand.
    pub fn dec(&mut self, mode: &AddressingMode)
        requires
            old(self)@.wf(),
            mode.has_address(),
        ensures
            old(self)@.modify_leaves(
                *mode,
                sub8(old(self)@.fetch_operand(*mode).2, 1),
                final(self)@.bus.mapper,
            ),
            final(self)@ == old(self)@.dec(*mode, final(self)@.bus.mapper),
            old(self)@.mapper_follows(final(self)@.bus.mapper),
            final(self)@.bus.wf(),
            final(self)@.add_cycles <= old(self)@.add_cycles + 1,
    {
        proof {
            reveal(CpuView::dec);
        }
        let addr = self.get_operand_address(mode);
        let value = self.mem_read(addr).wrapping_sub(1);
        self.mem_write(addr, value);
        self.update_zero_and_negative_flags(value);
    }

    /// A or the operand.
    pub fn ora(&mut self, mode: &AddressingMode)
        requires
            old(self)@.wf(),
            mode.has_address(),
        ensures
            final(self)@ == old(self)@.ora(*mode),
            final(self)@.bus.wf(),
            final(self)@.bus.mapper == old(self)@.bus.mapper,
            final(self)@.add_cycles <= old(self)@.add_cycles + 1,
    {
        proof {
            reveal(CpuView::ora);
        }
        let addr = self.get_operand_address(mode);
        let value = self.mem_read(addr);
        self.register_a = self.register_a | value;
        self.update_zero_and_negative_flags(self.register_a);
    }

    /// A exclusive-or the operand.
    pub fn eor(&mut self, mode: &AddressingMode)
        requires
            old(self)@.wf(),
            mode.has_address(),
        ensures
            final(self)@ == old(self)@.eor(*mode),
            final(self)@.bus.wf(),
            final(self)@.bus.mapper == old(self)@.bus.mapper,
            final(self)@.add_cycles <= old(self)@.add_cycles + 1,
    {
        proof {
            reveal(CpuView::eor);
        }
        let addr = self.get_operand_address(mode);
        let value = self.mem_read(addr);
        self.register_a = self.register_a ^ value;
        self.update_zero_and_negative_flags(self.register_a);
    }

    /// A and the operand.
    pub fn and(&mut self, mode: &AddressingMode)
        requires
            old(self)@.wf(),
            mode.has_address(),
        ensures
            final(self)@ == old(self)@.and(*mode),
            final(self)@.bus.wf(),
            final(self)@.bus.mapper == old(self)@.bus.mapper,
            final(self)@.add_cycles <= old(self)@.add_cycles + 1,
    {
        proof {
            reveal(CpuView::and);
        }
        let addr = self.get_operand_address(mode);
        let value = self.mem_read(addr);
        self.register_a = self.register_a & value;
        self.update_zero_and_negative_flags(self.register_a);
    }

    /// Copies X into A, then A and the operand.
    pub fn ane(&mut self, mode: &AddressingMode)
        requires
            old(self)@.wf(),
            mode.has_address(),
        ensures
            final(self)@ == old(self)@.ane(*mode),
            final(self)@.bus.wf(),
            final(self)@.bus.mapper == old(self)@.bus.mapper,
            final(self)@.add_cycles <= old(self)@.add_cycles + 1,
    {
        proof {
            reveal(CpuView::ane);
        }
        self.txa(mode);
        self.and(mode);
    }

    /// Tests the operand's bits against A.
    pub fn bit(&mut self, mode: &AddressingMode)
        requires
            old(self)@.wf(),
            mode.has_address(),
        ensures
            final(self)@ == old(self)@.bit(*mode),
            final(self)@.bus.wf(),
            final(self)@.bus.mapper == old(self)@.bus.mapper,
            final(self)@.add_cycles <= old(self)@.add_cycles + 1,
    {
        proof {
            reveal(CpuView::bit);
        }
        let addr = self.get_operand_address(mode);
        let value = self.mem_read(addr);
        let zero = self.register_a & value;
        if zero == 0 {
            self.status = self.status | FLAG_ZERO;
        } else {
            self.status = self.status & !FLAG_ZERO;
        }
        let flags = FLAG_NEGATIVE | FLAG_OVERFLOW;
        self.status = (self.status & !flags) | (value & flags);
    }

    fn _cmp(&mut self, target: u8, mode: &AddressingMode)
        requires
            old(self)@.wf(),
            mode.has_address(),
        ensures
            final(self)@ == old(self)@.compare(target, *mode),
            final(self)@.bus.wf(),
            final(self)@.bus.mapper == old(self)@.bus.mapper,
            final(self)@.add_cycles <= old(self)@.add_cycles + 1,
    {
        proof {
            reveal(CpuView::compare);
        }
        let addr = self.get_operand_address(mode);
        let value = self.mem_read(addr);
        if target >= value {
            self.sec(&AddressingMode::Implied);
        } else {
            self.clc(&AddressingMode::Implied);
        }
        let value = target.wrapping_sub(value);
        self.update_zero_and_negative_flags(value);
    }

    /// Compares Y with the operand.
    pub fn cpy(&mut self, mode: &AddressingMode)
        requires
            old(self)@.wf(),
            mode.has_address(),
        ensures
            final(self)@ == old(self)@.cpy(*mode),
            final(self)@.bus.wf(),
            final(self)@.bus.mapper == old(self)@.bus.mapper,
            final(self)@.add_cycles <= old(self)@.add_cycles + 1,
    {
        proof {
            reveal(CpuView::cpy);
        }
        self._cmp(self.register_y, mode);
    }

    /// Compares X with the operand.
    pub fn cpx(&mut self, mode: &AddressingMode)
        requires
            old(self)@.wf(),
            mode.has_address(),
        ensures
            final(self)@ == old(self)@.cpx(*mode),
            final(self)@.bus.wf(),
            final(self)@.bus.mapper == old(self)@.bus.mapper,
            final(self)@.add_cycles <= old(self)@.add_cycles + 1,
    {
        proof {
            reveal(CpuView::cpx);
        }
        self._cmp(self.register_x, mode);
    }

    /// Compares A with the operand.
    pub fn cmp(&mut self, mode: &AddressingMode)
        requires
            old(self)@.wf(),
            mode.has_address(),
        ensures
            final(self)@ == old(self)@.cmp(*mode),
            final(self)@.bus.wf(),
            final(self)@.bus.mapper == old(self)@.bus.mapper,
            final(self)@.add_cycles <= old(self)@.add_cycles + 1,
    {
        proof {
            reveal(CpuView::cmp);
        }
        self._cmp(self.register_a, mode);
    }

    /// Takes 1 from the operand, then compares A with it.
    pub fn dcp(&mut self, mode: &AddressingMode)
        requires
            old(self)@.wf(),
            old(self)@.add_cycles < ADD_CYCLES_LIMIT,
            mode.has_address(),
        ensures
            old(self)@.modify_leaves(*mode, sub8(old(self)@.fetch_operand(*mode).2, 1), final(self)@.bus.mapper),
            final(self)@ == old(self)@.dcp(*mode, final(self)@.bus.mapper),
            old(self)@.mapper_follows(final(self)@.bus.mapper),
            final(self)@.bus.wf(),
            final(self)@.add_cycles <= old(self)@.add_cycles + 2,
    {
        proof {
            reveal(CpuView::dcp);
        }
        self.dec(mode);
        self.cmp(mode);
    }

    /// Clears the overflow flag.
    pub fn clv(&mut self, _mode: &AddressingMode)
        ensures
            final(self)@ == old(self)@.flagged(FLAG_OVERFLOW, false),
    {
        self.status = self.status & !FLAG_OVERFLOW;
    }

    /// Sets the interrupt flag.
    pub fn sei(&mut self, _mode: &AddressingMode)
        ensures
            final(self)@ == old(self)@.flagged(FLAG_INTERRRUPT, true),
    {
        self.status = self.status | FLAG_INTERRRUPT;
    }

    /// Clears the interrupt flag.
    pub fn cli(&mut self, _mode: &AddressingMode)
        ensures
            final(self)@ == old(self)@.flagged(FLAG_INTERRRUPT, false),
    {
        self.status = self.status & !FLAG_INTERRRUPT;
    }

    /// Sets the decimal flag.
    pub fn sed(&mut self, _mode: &AddressingMode)
        ensures
            final(self)@ == old(self)@.flagged(FLAG_DECIMAL, true),
    {
        self.status = self.status | FLAG_DECIMAL;
    }

    /// Clears the decimal flag.
    pub fn cld(&mut self, _mode: &AddressingMode)
        ensures
            final(self)@ == old(self)@.flagged(FLAG_DECIMAL, false),
    {
        self.status = self.status & !FLAG_DECIMAL;
    }

    /// Sets the carry flag.
    pub fn sec(&mut self, _mode: &AddressingMode)
        ensures
            final(self)@ == old(self)@.flagged(FLAG_CARRY, true),
    {
        self.status = self.status | FLAG_CARRY;
    }

    /// Clears the carry flag.
    pub fn clc(&mut self, _mode: &AddressingMode)
        ensures
            final(self)@ == old(self)@.flagged(FLAG_CARRY, false),
    {
        self.status = self.status & !FLAG_CARRY;
    }

    fn _branch(&mut self, mode: &AddressingMode, flag: u8, is_flag: bool)
        requires
            old(self)@.wf(),
            mode.has_address(),
        ensures
            final(self)@ == old(self)@.branch(*mode, flag, is_flag),
            final(self)@.bus.wf(),
            final(self)@.bus.mapper == old(self)@.bus.mapper,
            final(self)@.add_cycles <= old(self)@.add_cycles + 3,
    {
        proof {
            reveal(CpuView::branch);
        }
        let addr = self.get_operand_address(mode);
        if is_flag {
            if self.status & flag != 0 {
                self.add_cycles += 1;
                if self.program_counter & 0xFF00 != addr & 0xFF00 {
                    self.add_cycles += 1;
                }
                self.program_counter = addr
            }
        } else {
            if self.status & flag == 0 {
                self.add_cycles += 1;
                if self.program_counter & 0xFF00 != addr & 0xFF00 {
                    self.add_cycles += 1;
                }
                self.program_counter = addr
            }
        }
    }
}

impl CPU {
    /// Branches if the overflow flag is set.
    pub fn bvs(&mut self, mode: &AddressingMode)
        requires
            old(self)@.wf(),
            mode.has_address(),
        ensures
            final(self)@ == old(self)@.branch(*mode, FLAG_OVERFLOW, true),
            final(self)@.bus.wf(),
            final(self)@.bus.mapper == old(self)@.bus.mapper,
            final(self)@.add_cycles <= old(self)@.add_cycles + 3,
    {
        self._branch(mode, FLAG_OVERFLOW, true);
    }

    /// Branches if the overflow flag is clear.
    pub fn bvc(&mut self, mode: &AddressingMode)
        requires
            old(self)@.wf(),
            mode.has_address(),
        ensures
            final(self)@ == old(self)@.branch(*mode, FLAG_OVERFLOW, false),
            final(self)@.bus.wf(),
            final(self)@.bus.mapper == old(self)@.bus.mapper,
            final(self)@.add_cycles <= old(self)@.add_cycles + 3,
    {
        self._branch(mode, FLAG_OVERFLOW, false);
    }

    /// Branches if the negative flag is clear.
    pub fn bpl(&mut self, mode: &AddressingMode)
        requires
            old(self)@.wf(),
            mode.has_address(),
        ensures
            final(self)@ == old(self)@.branch(*mode, FLAG_NEGATIVE, false),
            final(self)@.bus.wf(),
            final(self)@.bus.mapper == old(self)@.bus.mapper,
            final(self)@.add_cycles <= old(self)@.add_cycles + 3,
    {
        self._branch(mode, FLAG_NEGATIVE, false);
    }

    /// Branches if the negative flag is set.
    pub fn bmi(&mut self, mode: &AddressingMode)
        requires
            old(self)@.wf(),
            mode.has_address(),
        ensures
            final(self)@ == old(self)@.branch(*mode, FLAG_NEGATIVE, true),
            final(self)@.bus.wf(),
            final(self)@.bus.mapper == old(self)@.bus.mapper,
            final(self)@.add_cycles <= old(self)@.add_cycles + 3,
    {
        self._branch(mode, FLAG_NEGATIVE, true);
    }

    /// Branches if the zero flag is clear.
    pub fn bne(&mut self, mode: &AddressingMode)
        requires
            old(self)@.wf(),
            mode.has_address(),
        ensures
            final(self)@ == old(self)@.branch(*mode, FLAG_ZERO, false),
            final(self)@.bus.wf(),
            final(self)@.bus.mapper == old(self)@.bus.mapper,
            final(self)@.add_cycles <= old(self)@.add_cycles + 3,
    {
        self._branch(mode, FLAG_ZERO, false);
    }

    /// Branches if the zero flag is set.
    pub fn beq(&mut self, mode: &AddressingMode)
        requires
            old(self)@.wf(),
            mode.has_address(),
        ensures
            final(self)@ == old(self)@.branch(*mode, FLAG_ZERO, true),
            final(self)@.bus.wf(),
            final(self)@.bus.mapper == old(self)@.bus.mapper,
            final(self)@.add_cycles <= old(self)@.add_cycles + 3,
    {
        self._branch(mode, FLAG_ZERO, true);
    }

    /// Branches if the carry flag is clear.
    pub fn bcc(&mut self, mode: &AddressingMode)
        requires
            old(self)@.wf(),
            mode.has_address(),
        ensures
            final(self)@ == old(self)@.branch(*mode, FLAG_CARRY, false),
            final(self)@.bus.wf(),
            final(self)@.bus.mapper == old(self)@.bus.mapper,
            final(self)@.add_cycles <= old(self)@.add_cycles + 3,
    {
        self._branch(mode, FLAG_CARRY, false);
    }

    /// Branches if the carry flag is set.
    pub fn bcs(&mut self, mode: &AddressingMode)
        requires
            old(self)@.wf(),
            mode.has_address(),
        ensures
            final(self)@ == old(self)@.branch(*mode, FLAG_CARRY, true),
            final(self)@.bus.wf(),
            final(self)@.bus.mapper == old(self)@.bus.mapper,
            final(self)@.add_cycles <= old(self)@.add_cycles + 3,
    {
        self._branch(mode, FLAG_CARRY, true);
    }

}

impl CPU {
    /// Jumps to the operand's address.
    pub fn jmp(&mut self, mode: &AddressingMode)
        requires
            old(self)@.wf(),
            mode.has_address(),
        ensures
            final(self)@ == old(self)@.jmp(*mode),
            final(self)@.bus.wf(),
            final(self)@.bus.mapper == old(self)@.bus.mapper,
            final(self)@.add_cycles <= old(self)@.add_cycles + 1,
    {
        proof {
            reveal(CpuView::jmp);
        }
        let addr = self.get_operand_address(mode);
        self.program_counter = addr;
        self.program_counter = self.program_counter.wrapping_sub(2);
    }

    /// Jumps to a subroutine.
    pub fn jsr(&mut self, mode: &AddressingMode)
        requires
            old(self)@.wf(),
            mode.has_address(),
        ensures
            final(self)@ == old(self)@.jsr(*mode),
            final(self)@.bus.wf(),
            final(self)@.bus.mapper == old(self)@.bus.mapper,
            final(self)@.add_cycles <= old(self)@.add_cycles + 1,
    {
        proof {
            reveal(CpuView::jsr);
        }
        let addr = self.get_operand_address(mode);
        self._push_u16(self.program_counter.wrapping_add(2).wrapping_sub(1));
        self.program_counter = addr;
        self.program_counter = self.program_counter.wrapping_sub(2);
    }

    /// Returns from a subroutine.
    pub fn rts(&mut self, _mode: &AddressingMode)
        requires
            old(self)@.bus.wf(),
        ensures
            final(self)@ == old(self)@.rts(),
            final(self)@.bus.wf(),
            final(self)@.bus.mapper == old(self)@.bus.mapper,
            final(self)@.add_cycles == old(self)@.add_cycles,
    {
        proof {
            reveal(CpuView::rts);
        }
        let value = self._pop_u16();
        self.program_counter = value.wrapping_add(1);
    }

    /// Returns from an interrupt.
    pub fn rti(&mut self, _mode: &AddressingMode)
        requires
            old(self)@.bus.wf(),
        ensures
            final(self)@ == old(self)@.rti(),
            final(self)@.bus.wf(),
            final(self)@.bus.mapper == old(self)@.bus.mapper,
            final(self)@.add_cycles == old(self)@.add_cycles,
    {
        proof {
            reveal(CpuView::rti);
        }
        self.status = self._pop() & !FLAG_BREAK | FLAG_BREAK2;
        self.program_counter = self._pop_u16();
    }

    /// Takes the status off the stack.
    pub fn plp(&mut self, _mode: &AddressingMode)
        requires
            old(self)@.bus.wf(),
        ensures
            final(self)@ == old(self)@.plp(),
            final(self)@.bus.wf(),
            final(self)@.bus.mapper == old(self)@.bus.mapper,
            final(self)@.add_cycles == old(self)@.add_cycles,
    {
        proof {
            reveal(CpuView::plp);
        }
        self.status = self._pop() & !FLAG_BREAK | FLAG_BREAK2;
    }

    /// Puts the status onto the stack, with the break flag and bit 5 set.
    pub fn php(&mut self, _mode: &AddressingMode)
        requires
            old(self)@.bus.wf(),
        ensures
            final(self)@ == old(self)@.php(),
            final(self)@.bus.wf(),
            final(self)@.bus.mapper == old(self)@.bus.mapper,
            final(self)@.add_cycles == old(self)@.add_cycles,
    {
        proof {
            reveal(CpuView::php);
        }
        self._push(self.status | FLAG_BREAK | FLAG_BREAK2);
    }

    /// Takes A off the stack.
    pub fn pla(&mut self, _mode: &AddressingMode)
        requires
            old(self)@.bus.wf(),
        ensures
            final(self)@ == old(self)@.pla(),
            final(self)@.bus.wf(),
            final(self)@.bus.mapper == old(self)@.bus.mapper,
            final(self)@.add_cycles == old(self)@.add_cycles,
    {
        proof {
            reveal(CpuView::pla);
        }
        self.register_a = self._pop();
        self.update_zero_and_negative_flags(self.register_a);
    }

    /// Puts A onto the stack.
    pub fn pha(&mut self, _mode: &AddressingMode)
        requires
            old(self)@.bus.wf(),
        ensures
            final(self)@ == old(self)@.pha(),
            final(self)@.bus.wf(),
            final(self)@.bus.mapper == old(self)@.bus.mapper,
            final(self)@.add_cycles == old(self)@.add_cycles,
    {
        proof {
            reveal(CpuView::pha);
        }
        self._push(self.register_a);
    }

    /// Does nothing.
    pub fn nop(&mut self, _mode: &AddressingMode)
        ensures
            final(self)@ == old(self)@,
    {
    }

    /// Forces an interrupt.
    pub fn brk(&mut self, _mode: &AddressingMode)
        requires
            old(self)@.bus.wf(),
        ensures
            final(self)@ == old(self)@.brk(),
            final(self)@.bus.wf(),
            final(self)@.bus.mapper == old(self)@.bus.mapper,
            final(self)@.add_cycles == old(self)@.add_cycles,
    {
        proof {
            reveal(CpuView::brk);
            reveal(CpuView::interrupt);
        }
        if self.status & FLAG_BREAK != 0 {
            return ;
        }
        self._push_u16(self.program_counter.wrapping_add(1));
        self._push(self.status);
        self.program_counter = self.mem_read_u16(0xFFFE);
        self.status = self.status | FLAG_BREAK;
    }

    /// Answers an interrupt request of the audio unit or the mapper.
    pub fn call_irq(&mut self)
        requires
            old(self)@.bus.wf(),
        ensures
            final(self)@ == old(self)@.call_irq(),
            final(self)@.bus.wf(),
            final(self)@.bus.mapper == old(self)@.bus.mapper,
            final(self)@.add_cycles == old(self)@.add_cycles,
    {
        proof {
            reveal(CpuView::call_irq);
            reveal(CpuView::interrupt);
        }
        if self.status & FLAG_INTERRRUPT != 0 {
            return ;
        }
        self._push_u16(self.program_counter);
        self._push(self.status);
        self.program_counter = self.mem_read_u16(0xFFFE);
        self.status = self.status | FLAG_BREAK;
    }

    /// Answers the picture unit's non-maskable interrupt. Returns whether
    /// a frame became complete meanwhile.
    pub fn interrupt_nmi(&mut self) -> (frame_complete: bool)
        requires
            old(self)@.bus.wf(),
        ensures
            final(self)@ == old(self)@.interrupt_nmi(),
            frame_complete == old(self)@.nmi_completes_frame(),
            final(self)@.bus.wf(),
            final(self)@.bus.mapper == old(self)@.bus.mapper,
            final(self)@.add_cycles == old(self)@.add_cycles,
    {
        proof {
            reveal(CpuView::interrupt_nmi);
        }
        self._push_u16(self.program_counter);
        let mut status = self.status;
        status = status & !FLAG_BREAK;
        status = status | FLAG_BREAK2;
        self._push(status);
        self.status = self.status | FLAG_INTERRRUPT;
        let frame_complete = self.bus.tick(2);
        self.program_counter = self.mem_read_u16(0xFFFA);
        frame_complete
    }

    /// Rotates the operand right through the carry flag.
    pub fn ror(&mut self, mode: &AddressingMode)
        requires
            old(self)@.wf(),
            *mode is Accumulator || mode.has_address(),
        ensures
            old(self)@.modify_leaves(
                *mode,
                old(self)@.ror_result(old(self)@.shift_operand(*mode).2),
                final(self)@.bus.mapper,
            ),
            final(self)@ == old(self)@.ror(*mode, final(self)@.bus.mapper),
            old(self)@.mapper_follows(final(self)@.bus.mapper),
            final(self)@.bus.wf(),
            final(self)@.add_cycles <= old(self)@.add_cycles + 1,
    {
        proof {
            reveal(CpuView::ror);
            reveal(CpuView::shifted);
        }
        let (value, carry) = if matches!(mode, AddressingMode::Accumulator) {
            let carry = self.register_a & 0x01;
            self.register_a = self.register_a / 2;
            self.register_a = self.register_a | ((self.status & FLAG_CARRY) << 7);
            (self.register_a, carry)
        } else {
            let addr = self.get_operand_address(mode);
            let value = self.mem_read(addr);
            let carry = value & 0x01;
            let value = value / 2;
            let value = value | ((self.status & FLAG_CARRY) << 7);
            self.mem_write(addr, value);
            (value, carry)
        };
        self.status = if carry == 1 {
            self.status | FLAG_CARRY
        } else {
            self.status & !FLAG_CARRY
        };
        self.update_zero_and_negative_flags(value);
    }

    /// Rotates the operand left through the carry flag.
    pub fn rol(&mut self, mode: &AddressingMode)
        requires
            old(self)@.wf(),
            *mode is Accumulator || mode.has_address(),
        ensures
            old(self)@.modify_leaves(
                *mode,
                old(self)@.rol_result(old(self)@.shift_operand(*mode).2),
                final(self)@.bus.mapper,
            ),
            final(self)@ == old(self)@.rol(*mode, final(self)@.bus.mapper),
            old(self)@.mapper_follows(final(self)@.bus.mapper),
            final(self)@.bus.wf(),
            final(self)@.add_cycles <= old(self)@.add_cycles + 1,
    {
        proof {
            reveal(CpuView::rol);
            reveal(CpuView::shifted);
        }
        let (value, carry) = if matches!(mode, AddressingMode::Accumulator) {
            let carry = self.register_a >= 0x80;
            let value = double(self.register_a);
            self.register_a = value | (self.status & FLAG_CARRY);
            (self.register_a, carry)
        } else {
            let addr = self.get_operand_address(mode);
            let value = self.mem_read(addr);
            let carry = value >= 0x80;
            let value = double(value);
            let value = value | (self.status & FLAG_CARRY);
            self.mem_write(addr, value);
            (value, carry)
        };
        self.status = if carry {
            self.status | FLAG_CARRY
        } else {
            self.status & !FLAG_CARRY
        };
        self.update_zero_and_negative_flags(value);
    }

    /// Shifts the operand right.
    pub fn lsr(&mut self, mode: &AddressingMode)
        requires
            old(self)@.wf(),
            *mode is Accumulator || mode.has_address(),
        ensures
            old(self)@.modify_leaves(
                *mode,
                old(self)@.shift_operand(*mode).2 / 2,
                final(self)@.bus.mapper,
            ),
            final(self)@ == old(self)@.lsr(*mode, final(self)@.bus.mapper),
            old(self)@.mapper_follows(final(self)@.bus.mapper),
            final(self)@.bus.wf(),
            final(self)@.add_cycles <= old(self)@.add_cycles + 1,
    {
        proof {
            reveal(CpuView::lsr);
            reveal(CpuView::shifted);
        }
        let (value, carry) = if matches!(mode, AddressingMode::Accumulator) {
            let carry = self.register_a & 0x01;
            self.register_a = self.register_a / 2;
            (self.register_a, carry)
        } else {
            let addr = self.get_operand_address(mode);
            let value = self.mem_read(addr);
            let carry = value & 0x01;
            let value = value / 2;
            self.mem_write(addr, value);
            (value, carry)
        };
        self.status = if carry == 1 {
            self.status | FLAG_CARRY
        } else {
            self.status & !FLAG_CARRY
        };
        self.update_zero_and_negative_flags(value);
    }

    /// Shifts the operand left.
    pub fn asl(&mut self, mode: &AddressingMode)
        requires
            old(self)@.wf(),
            *mode is Accumulator || mode.has_address(),
        ensures
            old(self)@.modify_leaves(
                *mode,
                doubled(old(self)@.shift_operand(*mode).2),
                final(self)@.bus.mapper,
            ),
            final(self)@ == old(self)@.asl(*mode, final(self)@.bus.mapper),
            old(self)@.mapper_follows(final(self)@.bus.mapper),
            final(self)@.bus.wf(),
            final(self)@.add_cycles <= old(self)@.add_cycles + 1,
    {
        proof {
            reveal(CpuView::asl);
            reveal(CpuView::shifted);
        }
        let (value, carry) = if matches!(mode, AddressingMode::Accumulator) {
            let carry = self.register_a >= 0x80;
            let value = double(self.register_a);
            self.register_a = value;
            (value, carry)
        } else {
            let addr = self.get_operand_address(mode);
            let value = self.mem_read(addr);
            let carry = value >= 0x80;
            let value = double(value);
            self.mem_write(addr, value);
            (value, carry)
        };
        self.status = if carry {
            self.status | FLAG_CARRY
        } else {
            self.status & !FLAG_CARRY
        };
        self.update_zero_and_negative_flags(value);
    }

    /// Subtracts the operand from A, with borrow.
    pub fn sbc(&mut self, mode: &AddressingMode)
        requires
            old(self)@.wf(),
            mode.has_address(),
        ensures
            final(self)@ == old(self)@.sbc(*mode),
            final(self)@.bus.wf(),
            final(self)@.bus.mapper == old(self)@.bus.mapper,
            final(self)@.add_cycles <= old(self)@.add_cycles + 1,
    {
        proof {
            reveal(CpuView::sbc);
            reveal(CpuView::accumulated);
        }
        let addr = self.get_operand_address(mode);
        let value = self.mem_read(addr);
        proof {
            lemma_word_bytes(self.status, 0, 0);
        }
        let carry = self.status & FLAG_CARRY;
        let difference: i16 = self.register_a as i16 - value as i16 - (1 - carry) as i16;
        let n: u8 = if difference < 0 {
            (difference + 256) as u8
        } else {
            difference as u8
        };
        let overflow = (self.register_a & SIGN_BIT) != (value & SIGN_BIT) && (self.register_a
            & SIGN_BIT) != (n & SIGN_BIT);
        self.register_a = n;
        self.status = if difference >= 0 {
            self.status | FLAG_CARRY
        } else {
            self.status & !FLAG_CARRY
        };
        self.status = if overflow {
            self.status | FLAG_OVERFLOW
        } else {
            self.status & !FLAG_OVERFLOW
        };
        self.update_zero_and_negative_flags(self.register_a)
    }

    /// Adds the operand to A, with carry.
    pub fn adc(&mut self, mode: &AddressingMode)
        requires
            old(self)@.wf(),
            mode.has_address(),
        ensures
            final(self)@ == old(self)@.adc(*mode),
            final(self)@.bus.wf(),
            final(self)@.bus.mapper == old(self)@.bus.mapper,
            final(self)@.add_cycles <= old(self)@.add_cycles + 1,
    {
        proof {
            reveal(CpuView::adc);
            reveal(CpuView::accumulated);
        }
        let addr = self.get_operand_address(mode);
        let value = self.mem_read(addr);
        proof {
            lemma_word_bytes(self.status, 0, 0);
        }
        let carry = self.status & FLAG_CARRY;
        let sum: u16 = self.register_a as u16 + value as u16 + carry as u16;
        let n: u8 = (sum % 256) as u8;
        let overflow = (self.register_a & SIGN_BIT) == (value & SIGN_BIT) && (value & SIGN_BIT)
            != (n & SIGN_BIT);
        self.register_a = n;
        self.status = if sum > 255 {
            self.status | FLAG_CARRY
        } else {
            self.status & !FLAG_CARRY
        };
        self.status = if overflow {
            self.status | FLAG_OVERFLOW
        } else {
            self.status & !FLAG_OVERFLOW
        };
        self.update_zero_and_negative_flags(self.register_a)
    }
}

/// Doubles a byte, dropping what leaves it.
pub fn double(value: u8) -> (result: u8)
    ensures
        result == doubled(value),
{
    ((value as u16 * 2) % 256) as u8
}

impl CPU {
    /// Rotates the operand right, then adds it to A.
    pub fn rra(&mut self, mode: &AddressingMode)
        requires
            old(self)@.wf(),
            old(self)@.add_cycles < ADD_CYCLES_LIMIT,
            mode.has_address(),
        ensures
            old(self)@.modify_leaves(*mode, old(self)@.ror_result(old(self)@.shift_operand(*mode).2), final(self)@.bus.mapper),
            final(self)@ == old(self)@.rra(*mode, final(self)@.bus.mapper),
            old(self)@.mapper_follows(final(self)@.bus.mapper),
            final(self)@.bus.wf(),
            final(self)@.add_cycles <= old(self)@.add_cycles + 2,
    {
        proof {
            reveal(CpuView::rra);
        }
        self.ror(mode);
        self.adc(mode);
    }

    /// Shifts the operand right, then A exclusive-or it.
    pub fn sre(&mut self, mode: &AddressingMode)
        requires
            old(self)@.wf(),
            old(self)@.add_cycles < ADD_CYCLES_LIMIT,
            mode.has_address(),
        ensures
            old(self)@.modify_leaves(*mode, old(self)@.shift_operand(*mode).2 / 2, final(self)@.bus.mapper),
            final(self)@ == old(self)@.sre(*mode, final(self)@.bus.mapper),
            old(self)@.mapper_follows(final(self)@.bus.mapper),
            final(self)@.bus.wf(),
            final(self)@.add_cycles <= old(self)@.add_cycles + 2,
    {
        proof {
            reveal(CpuView::sre);
        }
        self.lsr(mode);
        self.eor(mode);
    }

    /// Rotates the operand left, then A and it.
    pub fn rla(&mut self, mode: &AddressingMode)
        requires
            old(self)@.wf(),
            old(self)@.add_cycles < ADD_CYCLES_LIMIT,
            mode.has_address(),
        ensures
            old(self)@.modify_leaves(*mode, old(self)@.rol_result(old(self)@.shift_operand(*mode).2), final(self)@.bus.mapper),
            final(self)@ == old(self)@.rla(*mode, final(self)@.bus.mapper),
            old(self)@.mapper_follows(final(self)@.bus.mapper),
            final(self)@.bus.wf(),
            final(self)@.add_cycles <= old(self)@.add_cycles + 2,
    {
        proof {
            reveal(CpuView::rla);
        }
        self.rol(mode);
        self.and(mode);
    }

    /// Shifts the operand left, then A or it.
    pub fn slo(&mut self, mode: &AddressingMode)
        requires
            old(self)@.wf(),
            old(self)@.add_cycles < ADD_CYCLES_LIMIT,
            mode.has_address(),
        ensures
            old(self)@.modify_leaves(*mode, doubled(old(self)@.shift_operand(*mode).2), final(self)@.bus.mapper),
            final(self)@ == old(self)@.slo(*mode, final(self)@.bus.mapper),
            old(self)@.mapper_follows(final(self)@.bus.mapper),
            final(self)@.bus.wf(),
            final(self)@.add_cycles <= old(self)@.add_cycles + 2,
    {
        proof {
            reveal(CpuView::slo);
        }
        self.asl(mode);
        self.ora(mode);
    }

    /// Adds 1 to the operand, then subtracts it from A.
    pub fn isb(&mut self, mode: &AddressingMode)
        requires
            old(self)@.wf(),
            old(self)@.add_cycles < ADD_CYCLES_LIMIT,
            mode.has_address(),
        ensures
            old(self)@.modify_leaves(*mode, add8(old(self)@.fetch_operand(*mode).2, 1), final(self)@.bus.mapper),
            final(self)@ == old(self)@.isb(*mode, final(self)@.bus.mapper),
            old(self)@.mapper_follows(final(self)@.bus.mapper),
            final(self)@.bus.wf(),
            final(self)@.add_cycles <= old(self)@.add_cycles + 2,
    {
        proof {
            reveal(CpuView::isb);
        }
        self.inc(mode);
        self.sbc(mode);
    }

}

impl CpuView {
    /// The processor with the picture unit's interrupt request taken.
    pub open spec fn nmi_taken(self) -> Self {
        CpuView {
            bus: BusView { ppu: PpuState { nmi_interrupt: None, ..self.bus.ppu }, ..self.bus },
            ..self
        }
    }

    /// The processor after it has looked for interrupts: first for the
    /// picture unit's, which it answers at once; then for the audio
    /// unit's and, only if that is quiet, for the mapper's, which gives
    /// its request up when asked.
    pub open spec fn poll_interrupts(self) -> Self {
        let first = if self.bus.ppu.nmi_interrupt is Some {
            self.nmi_taken().interrupt_nmi()
        } else {
            self
        };
        if first.bus.apu.irq() {
            first.call_irq()
        } else {
            let asked = CpuView {
                bus: BusView { mapper: first.bus.mapper.spec_answered(), ..first.bus },
                ..first
            };
            if first.bus.mapper.irq_raised() {
                asked.call_irq()
            } else {
                asked
            }
        }
    }

    /// True when a frame becomes complete while the processor looks for
    /// interrupts.
    pub open spec fn poll_completes_frame(self) -> bool {
        self.bus.ppu.nmi_interrupt is Some && self.nmi_taken().nmi_completes_frame()
    }

    /// The first half of a step: the processor looks for interrupts, reads
    /// the opcode at the program counter and moves on to the operand
    /// bytes. Gives the processor and the decoded opcode.
    pub open spec fn fetch(self) -> (Self, Option<Decoded>) {
        let polled = self.poll_interrupts();
        let (read, code) = polled.read(polled.program_counter);
        (
            CpuView { program_counter: add16(polled.program_counter, 1), ..read },
            spec_decode(code),
        )
    }

    /// The extra cycles that count after an instruction: those of a page
    /// crossing or a taken branch, none for an instruction of fixed length.
    pub open spec fn extra_cycles(self, op: Decoded) -> u8 {
        if op.cycle_calc_mode is Fixed {
            0
        } else {
            self.add_cycles
        }
    }

    /// The second half of a step: the instruction is performed, and the
    /// units on the bus run for the cycles that it took. `mapper_after` is
    /// the mapper as the instruction leaves it.
    pub open spec fn execute(self, op: Decoded, mapper_after: AnyMapper) -> Self {
        let called = spec_call(CpuView { add_cycles: 0, ..self }, op, mapper_after);
        let extra = called.extra_cycles(op);
        CpuView {
            add_cycles: extra,
            bus: called.bus.tick((op.cycles + extra) as u8),
            ..called
        }
    }

    /// True when the second half of a step completes a frame.
    pub open spec fn execute_completes_frame(self, op: Decoded, mapper_after: AnyMapper) -> bool {
        let called = spec_call(CpuView { add_cycles: 0, ..self }, op, mapper_after);
        called.bus.tick_completes_frame((op.cycles + called.extra_cycles(op)) as u8)
    }
}

impl CPU {
    /// Looks for interrupts and answers them. Returns whether a frame
    /// became complete meanwhile.
    pub fn poll_interrupts(&mut self) -> (frame_complete: bool)
        requires
            old(self)@.bus.wf(),
        ensures
            final(self)@ == old(self)@.poll_interrupts(),
            frame_complete == old(self)@.poll_completes_frame(),
            old(self)@.mapper_follows(final(self)@.bus.mapper),
            final(self)@.bus.wf(),
            final(self)@.add_cycles == old(self)@.add_cycles,
    {
        let mut frame_complete = false;
        if let Some(_nmi) = self.bus.poll_nmi_status() {
            frame_complete = self.interrupt_nmi();
        }
        if self.bus.poll_apu_irq() {
            self.call_irq();
        } else if self.bus.mapper.is_irq() {
            self.call_irq();
        }
        frame_complete
    }

    /// The first half of a step: looks for interrupts, then reads and
    /// decodes the opcode at the program counter. Returns the decoded
    /// opcode, or nothing for an opcode that stands for no instruction,
    /// and whether a frame became complete meanwhile.
    pub fn fetch(&mut self) -> (fetched: (Option<Decoded>, bool))
        requires
            old(self)@.bus.wf(),
        ensures
            final(self)@ == old(self)@.fetch().0,
            fetched.0 == old(self)@.fetch().1,
            fetched.1 == old(self)@.poll_completes_frame(),
            fetched.0 matches Some(op) ==> op.wf(),
            old(self)@.mapper_follows(final(self)@.bus.mapper),
            final(self)@.bus.wf(),
            final(self)@.add_cycles == old(self)@.add_cycles,
    {
        let frame_complete = self.poll_interrupts();
        let opscode = self.mem_read(self.program_counter);
        self.program_counter = self.program_counter.wrapping_add(1);
        (decode(opscode), frame_complete)
    }

    /// The second half of a step: performs a decoded instruction and lets
    /// the units on the bus run for its cycles. Returns whether a frame
    /// became complete.
    pub fn execute(&mut self, op: &Decoded) -> (frame_complete: bool)
        requires
            old(self)@.bus.wf(),
            op.wf(),
        ensures
            final(self)@ == old(self)@.execute(*op, final(self)@.bus.mapper),
            spec_leaves(
                CpuView { add_cycles: 0, ..old(self)@ },
                op.instruction,
                op.addressing_mode,
                final(self)@.bus.mapper,
            ),
            frame_complete == old(self)@.execute_completes_frame(*op, final(self)@.bus.mapper),
            old(self)@.mapper_follows(final(self)@.bus.mapper),
            final(self)@.wf(),
    {
        self.add_cycles = 0;
        call(self, op);
        match op.cycle_calc_mode {
            CycleCalcMode::Fixed => {
                self.add_cycles = 0;
            },
            _ => {},
        }
        self.bus.tick(op.cycles + self.add_cycles)
    }
}

} // verus!
