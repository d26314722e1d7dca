//! A line of text for each instruction that the processor is about to
//! perform: its address, its bytes, its assembly form, the memory that it
//! works on, and the registers.
use vstd::prelude::*;
use crate::bus::Mem;
use crate::cpu::{add16, add8, signed, word, AddressingMode, CpuView, CPU};
use crate::opscodes::{
    decode,
    is_official,
    letters,
    operand_bytes,
    spec_decode,
    spec_is_official,
    spec_letters,
    Decoded,
    Instruction,
};

verus! {

/// `String::push` of the standard library appends one character to a
/// string and leaves the characters before it as they are.
pub assume_specification[ String::push ](s: &mut String, ch: char)
    ensures
        final(s)@ == old(s)@.push(ch),
;

/// The sixteen digits of hexadecimal numbers, capitals for ten to fifteen.
pub open spec fn hex_digits() -> Seq<char> {
    seq!['0', '1', '2', '3', '4', '5', '6', '7', '8', '9', 'A', 'B', 'C', 'D', 'E', 'F']
}

/// A byte as two hexadecimal digits.
pub open spec fn hex2(value: u8) -> Seq<char> {
    seq![hex_digits()[value as int / 16], hex_digits()[value as int % 16]]
}

/// A word as four hexadecimal digits.
pub open spec fn hex4(value: u16) -> Seq<char> {
    hex2((value / 256) as u8) + hex2((value % 256) as u8)
}

/// A text filled up with spaces to a width; a text that is wider stays as
/// it is.
pub open spec fn padded(text: Seq<char>, width: nat) -> Seq<char> {
    if text.len() >= width {
        text
    } else {
        text + Seq::new((width - text.len()) as nat, |i: int| ' ')
    }
}

fn hex_digit(value: u8) -> (digit: char)
    requires
        value < 16,
    ensures
        digit == hex_digits()[value as int],
{
    match value {
        0 => '0',
        1 => '1',
        2 => '2',
        3 => '3',
        4 => '4',
        5 => '5',
        6 => '6',
        7 => '7',
        8 => '8',
        9 => '9',
        10 => 'A',
        11 => 'B',
        12 => 'C',
        13 => 'D',
        14 => 'E',
        _ => 'F',
    }
}

fn push_hex2(out: &mut Vec<char>, value: u8)
    ensures
        final(out)@ == old(out)@ + hex2(value),
{
    out.push(hex_digit(value / 16));
    out.push(hex_digit(value % 16));
    assert(out@ =~= old(out)@ + hex2(value));
}

fn push_hex4(out: &mut Vec<char>, value: u16)
    ensures
        final(out)@ == old(out)@ + hex4(value),
{
    push_hex2(out, (value / 256) as u8);
    push_hex2(out, (value % 256) as u8);
    assert(out@ =~= old(out)@ + hex4(value));
}

fn push_all(out: &mut Vec<char>, text: &Vec<char>)
    ensures
        final(out)@ == old(out)@ + text@,
{
    let mut i: usize = 0;
    while i < text.len()
        invariant
            0 <= i <= text@.len(),
            out@ == old(out)@ + text@.take(i as int),
        decreases text@.len() - i,
    {
        out.push(text[i]);
        assert(out@ =~= old(out)@ + text@.take(i + 1));
        i += 1;
    }
    assert(text@.take(i as int) =~= text@);
}

fn pad(out: &mut Vec<char>, width: usize)
    ensures
        final(out)@ == padded(old(out)@, width as nat),
{
    let ghost start = out@;
    let from = out.len();
    if from >= width {
        return ;
    }
    let mut n: usize = from;
    assert(out@ =~= start + Seq::new(0, |i: int| ' '));
    while n < width
        invariant
            from <= n <= width,
            from == start.len(),
            out@ == start + Seq::new((n - from) as nat, |i: int| ' '),
        decreases width - n,
    {
        out.push(' ');
        n += 1;
        assert(out@ =~= start + Seq::new((n - from) as nat, |i: int| ' '));
    }
}

/// Makes a string of characters.
pub fn to_string(text: &Vec<char>) -> (s: String)
    ensures
        s@ == text@,
{
    let mut s = String::new();
    let mut i: usize = 0;
    while i < text.len()
        invariant
            0 <= i <= text@.len(),
            s@ == text@.take(i as int),
        decreases text@.len() - i,
    {
        s.push(text[i]);
        assert(s@ =~= text@.take(i + 1));
        i += 1;
    }
    assert(text@.take(i as int) =~= text@);
    s
}

/// The bytes of an instruction: two digits each, a space between them.
pub open spec fn binary_text(op: u8, args: Seq<u8>) -> Seq<char>
    decreases args.len(),
{
    if args.len() == 0 {
        hex2(op)
    } else {
        binary_text(op, args.drop_last()) + seq![' '] + hex2(args.last())
    }
}

fn binary_chars(op: u8, args: &Vec<u8>) -> (text: Vec<char>)
    ensures
        text@ == binary_text(op, args@),
{
    let mut text: Vec<char> = Vec::new();
    push_hex2(&mut text, op);
    let mut i: usize = 0;
    assert(args@.take(0) =~= Seq::<u8>::empty());
    while i < args.len()
        invariant
            0 <= i <= args@.len(),
            text@ == binary_text(op, args@.take(i as int)),
        decreases args@.len() - i,
    {
        proof {
            assert(args@.take(i + 1).drop_last() =~= args@.take(i as int));
        }
        let ghost before = text@;
        text.push(' ');
        push_hex2(&mut text, args[i]);
        assert(text@ =~= before + seq![' '] + hex2(args@[i as int]));
        i += 1;
    }
    assert(args@.take(i as int) =~= args@);
    text
}

/// The bytes of an instruction as text.
pub fn binary(op: u8, args: &Vec<u8>) -> (text: String)
    ensures
        text@ == binary_text(op, args@),
{
    to_string(&binary_chars(op, args))
}

/// The address that a branch at `program_counter` with the offset
/// `offset` leads to.
pub open spec fn branch_target(program_counter: u16, offset: u8) -> u16 {
    add16(add16(program_counter, signed(offset)), 2)
}

/// The operand of an instruction in assembly form: `#$12` for an
/// immediate value, `$12` and `$1234` for addresses, with `,X` or `,Y` for
/// an index and parentheses for an indirection, `A` for the accumulator,
/// the target address for a branch, nothing for no operand.
pub open spec fn address_text(program_counter: u16, mode: AddressingMode, args: Seq<u8>) -> Seq<
    char,
> {
    match mode {
        AddressingMode::Implied => Seq::empty(),
        AddressingMode::Accumulator => seq!['A'],
        AddressingMode::Immediate => seq!['#', '$'] + hex2(args[0]),
        AddressingMode::ZeroPage => seq!['$'] + hex2(args[0]),
        AddressingMode::Absolute => seq!['$'] + hex2(args[1]) + hex2(args[0]),
        AddressingMode::ZeroPage_X => seq!['$'] + hex2(args[0]) + seq![',', 'X'],
        AddressingMode::ZeroPage_Y => seq!['$'] + hex2(args[0]) + seq![',', 'Y'],
        AddressingMode::Absolute_X => seq!['$'] + hex2(args[1]) + hex2(args[0]) + seq![',', 'X'],
        AddressingMode::Absolute_Y => seq!['$'] + hex2(args[1]) + hex2(args[0]) + seq![',', 'Y'],
        AddressingMode::Indirect => seq!['(', '$'] + hex2(args[1]) + hex2(args[0]) + seq![')'],
        AddressingMode::Indirect_X => seq!['(', '$'] + hex2(args[0]) + seq![',', 'X', ')'],
        AddressingMode::Indirect_Y => seq!['(', '$'] + hex2(args[0]) + seq![')', ',', 'Y'],
        AddressingMode::Relative => seq!['$'] + hex4(branch_target(program_counter, args[0])),
        AddressingMode::NoneAddressing => Seq::empty(),
    }
}

fn chars1(a: char) -> (text: Vec<char>)
    ensures
        text@ == seq![a],
{
    let mut text: Vec<char> = Vec::new();
    text.push(a);
    assert(text@ =~= seq![a]);
    text
}

fn chars2(a: char, b: char) -> (text: Vec<char>)
    ensures
        text@ == seq![a, b],
{
    let mut text: Vec<char> = Vec::new();
    text.push(a);
    text.push(b);
    assert(text@ =~= seq![a, b]);
    text
}

fn chars3(a: char, b: char, c: char) -> (text: Vec<char>)
    ensures
        text@ == seq![a, b, c],
{
    let mut text: Vec<char> = Vec::new();
    text.push(a);
    text.push(b);
    text.push(c);
    assert(text@ =~= seq![a, b, c]);
    text
}

fn join2(a: &Vec<char>, b: &Vec<char>) -> (text: Vec<char>)
    ensures
        text@ == a@ + b@,
{
    let mut text: Vec<char> = Vec::new();
    push_all(&mut text, a);
    push_all(&mut text, b);
    assert(text@ =~= a@ + b@);
    text
}

fn join3(a: &Vec<char>, b: &Vec<char>, c: &Vec<char>) -> (text: Vec<char>)
    ensures
        text@ == a@ + b@ + c@,
{
    let mut text = join2(a, b);
    push_all(&mut text, c);
    text
}

fn join4(a: &Vec<char>, b: &Vec<char>, c: &Vec<char>, d: &Vec<char>) -> (text: Vec<char>)
    ensures
        text@ == a@ + b@ + c@ + d@,
{
    let mut text = join3(a, b, c);
    push_all(&mut text, d);
    text
}

fn branch_target_of(program_counter: u16, offset: u8) -> (target: u16)
    ensures
        target == branch_target(program_counter, offset),
{
    let moved = if offset < 0x80 {
        program_counter.wrapping_add(offset as u16)
    } else {
        program_counter.wrapping_sub(0x100 - offset as u16)
    };
    moved.wrapping_add(2)
}

fn address_chars(program_counter: u16, mode: &AddressingMode, args: &Vec<u8>) -> (text: Vec<char>)
    requires
        args@.len() >= operand_bytes(*mode),
        !(*mode is NoneAddressing),
    ensures
        text@ == address_text(program_counter, *mode, args@),
{
    match mode {
        AddressingMode::Implied => {
            return Vec::new();
        },
        AddressingMode::Accumulator => {
            return chars1('A');
        },
        AddressingMode::Immediate => {
            return join2(&chars2('#', '$'), &hex2_chars(args[0]));
        },
        AddressingMode::ZeroPage => {
            return join2(&chars1('$'), &hex2_chars(args[0]));
        },
        AddressingMode::Absolute => {
            return join3(&chars1('$'), &hex2_chars(args[1]), &hex2_chars(args[0]));
        },
        AddressingMode::ZeroPage_X => {
            return join3(&chars1('$'), &hex2_chars(args[0]), &chars2(',', 'X'));
        },
        AddressingMode::ZeroPage_Y => {
            return join3(&chars1('$'), &hex2_chars(args[0]), &chars2(',', 'Y'));
        },
        AddressingMode::Absolute_X => {
            return join4(
                &chars1('$'),
                &hex2_chars(args[1]),
                &hex2_chars(args[0]),
                &chars2(',', 'X'),
            );
        },
        AddressingMode::Absolute_Y => {
            return join4(
                &chars1('$'),
                &hex2_chars(args[1]),
                &hex2_chars(args[0]),
                &chars2(',', 'Y'),
            );
        },
        AddressingMode::Indirect => {
            return join4(
                &chars2('(', '$'),
                &hex2_chars(args[1]),
                &hex2_chars(args[0]),
                &chars1(')'),
            );
        },
        AddressingMode::Indirect_X => {
            return join3(&chars2('(', '$'), &hex2_chars(args[0]), &chars3(',', 'X', ')'));
        },
        AddressingMode::Indirect_Y => {
            return join3(&chars2('(', '$'), &hex2_chars(args[0]), &chars3(')', ',', 'Y'));
        },
        AddressingMode::Relative => {
            return join2(&chars1('$'), &hex4_chars(branch_target_of(program_counter, args[0])));
        },
        AddressingMode::NoneAddressing => {
            return Vec::new();
        },
    }
}

/// The operand of an instruction in assembly form.
pub fn address(program_counter: u16, ops: &Decoded, args: &Vec<u8>) -> (text: String)
    requires
        ops.wf(),
        args@.len() >= ops.bytes - 1,
    ensures
        text@ == address_text(program_counter, ops.addressing_mode, args@),
{
    to_string(&address_chars(program_counter, &ops.addressing_mode, args))
}

/// The name of an instruction as the trace shows it: a space and the
/// three letters, or a star in place of the space for an undocumented one.
pub open spec fn mnemonic_text(ops: Decoded) -> Seq<char> {
    (if spec_is_official(ops) {
        seq![' ']
    } else {
        seq!['*']
    }) + spec_letters(ops.instruction)
}

/// An instruction in assembly form: its name, a space, its operand.
pub open spec fn disasm_text(program_counter: u16, ops: Decoded, args: Seq<u8>) -> Seq<char> {
    mnemonic_text(ops) + seq![' '] + address_text(program_counter, ops.addressing_mode, args)
}

fn mnemonic_chars(ops: &Decoded) -> (text: Vec<char>)
    ensures
        text@ == mnemonic_text(*ops),
{
    let name = letters(ops.instruction);
    let mark = if is_official(ops) {
        chars1(' ')
    } else {
        chars1('*')
    };
    let three = chars3(name[0], name[1], name[2]);
    assert(three@ =~= spec_letters(ops.instruction));
    join2(&mark, &three)
}

fn disasm_chars(program_counter: u16, ops: &Decoded, args: &Vec<u8>) -> (text: Vec<char>)
    requires
        ops.wf(),
        args@.len() >= ops.bytes - 1,
    ensures
        text@ == disasm_text(program_counter, *ops, args@),
{
    join3(
        &mnemonic_chars(ops),
        &chars1(' '),
        &address_chars(program_counter, &ops.addressing_mode, args),
    )
}

/// An instruction in assembly form.
pub fn disasm(program_counter: u16, ops: &Decoded, args: &Vec<u8>) -> (text: String)
    requires
        ops.wf(),
        args@.len() >= ops.bytes - 1,
    ensures
        text@ == disasm_text(program_counter, *ops, args@),
{
    to_string(&disasm_chars(program_counter, ops, args))
}

/// The registers: `A:01 X:02 Y:03 P:24 SP:FD`.
pub open spec fn registers_text(cpu: CpuView) -> Seq<char> {
    seq!['A', ':'] + hex2(cpu.register_a) + seq![' ', 'X', ':'] + hex2(cpu.register_x) + seq![
        ' ',
        'Y',
        ':',
    ] + hex2(cpu.register_y) + seq![' ', 'P', ':'] + hex2(cpu.status) + seq![' ', 'S', 'P', ':']
        + hex2(cpu.stack_pointer)
}

fn register_chars(label: &Vec<char>, value: u8) -> (text: Vec<char>)
    ensures
        text@ == label@ + hex2(value),
{
    join2(label, &hex2_chars(value))
}

fn registers_chars(cpu: &CPU) -> (text: Vec<char>)
    ensures
        text@ == registers_text(cpu@),
{
    let a = register_chars(&chars2('A', ':'), cpu.register_a);
    let x = register_chars(&chars3(' ', 'X', ':'), cpu.register_x);
    let y = register_chars(&chars3(' ', 'Y', ':'), cpu.register_y);
    let p = register_chars(&chars3(' ', 'P', ':'), cpu.status);
    let mut label = chars3(' ', 'S', 'P');
    label.push(':');
    assert(label@ =~= seq![' ', 'S', 'P', ':']);
    let sp = register_chars(&label, cpu.stack_pointer);
    let text = join4(&a, &x, &y, &p);
    let text = join2(&text, &sp);
    assert(text@ =~= registers_text(cpu@));
    text
}

/// The registers as text.
pub fn cpu2str(cpu: &CPU) -> (text: String)
    ensures
        text@ == registers_text(cpu@),
{
    to_string(&registers_chars(cpu))
}

/// True for the jumps, of which the trace shows the target only where it
/// is read from memory.
pub open spec fn is_jump(instruction: Instruction) -> bool {
    instruction is Jmp || instruction is Jsr
}

/// `= 12`: the value that an instruction works on.
pub open spec fn value_text(value: u8) -> Seq<char> {
    seq!['=', ' '] + hex2(value)
}

/// `@ 1234 = 12`: the address that an index led to and the value there.
pub open spec fn indexed_text(addr: Seq<char>, value: u8) -> Seq<char> {
    seq!['@', ' '] + addr + seq![' '] + value_text(value)
}

/// `= 12` for the value at an address, and the processor after the read.
#[verifier::opaque]
pub open spec fn shown_value(cpu: CpuView, addr: u16) -> (CpuView, Seq<char>) {
    let (after, value) = cpu.read(addr);
    (after, value_text(value))
}

/// `@ 1234 = 12` for the value at an address that an index led to.
#[verifier::opaque]
pub open spec fn shown_indexed(cpu: CpuView, addr: u16) -> (CpuView, Seq<char>) {
    let (after, value) = cpu.read(addr);
    (after, indexed_text(hex4(addr), value))
}

/// `@ 12 = 34` for the value at an address in page 0 that an index led
/// to.
#[verifier::opaque]
pub open spec fn shown_zero_page(cpu: CpuView, addr: u8) -> (CpuView, Seq<char>) {
    let (after, value) = cpu.read(addr as u16);
    (after, indexed_text(hex2(addr), value))
}

/// `= 1234` for the target of a jump through the word at an address.
#[verifier::opaque]
pub open spec fn shown_target(cpu: CpuView, addr: u16) -> (CpuView, Seq<char>) {
    let (after, value) = cpu.read_u16(addr);
    (after, seq!['=', ' '] + hex4(value))
}

/// `@ 12 = 3456 = 78` for an operand whose address is found in page 0 at
/// the pointer `ptr`.
#[verifier::opaque]
pub open spec fn shown_indirect_x(cpu: CpuView, ptr: u8) -> (CpuView, Seq<char>) {
    let (found, addr) = cpu.read_u16(ptr as u16);
    let (after, value) = found.read(addr);
    (after, indexed_text(hex2(ptr) + seq![' ', '=', ' '] + hex4(addr), value))
}

/// `= 1234 @ 1256 = 78` for an operand at the address that is found in
/// page 0 at `base`, plus Y.
#[verifier::opaque]
pub open spec fn shown_indirect_y(cpu: CpuView, base: u8) -> (CpuView, Seq<char>) {
    let (found, deref_base) = cpu.read_u16(base as u16);
    let deref = add16(deref_base, cpu.register_y as int);
    let (after, value) = found.read(deref);
    (after, seq!['=', ' '] + hex4(deref_base) + seq![' '] + indexed_text(hex4(deref), value))
}

/// The memory that a jump works on: its target where it jumps through
/// memory, else nothing.
#[verifier::opaque]
pub open spec fn jump_access_text(cpu: CpuView, mode: AddressingMode, args: Seq<u8>) -> (
    CpuView,
    Seq<char>,
) {
    if mode is Indirect {
        shown_target(cpu, word(args[0], args[1]))
    } else {
        (cpu, Seq::empty())
    }
}

/// The memory that an instruction other than a jump works on: its operand,
/// with the address where an index or an indirection leads to it; nothing
/// for immediate and implied operands and for branches.
#[verifier::opaque]
pub open spec fn operand_access_text(cpu: CpuView, mode: AddressingMode, args: Seq<u8>) -> (
    CpuView,
    Seq<char>,
) {
    match mode {
        AddressingMode::Absolute => shown_value(cpu, word(args[0], args[1])),
        AddressingMode::Absolute_X => shown_indexed(
            cpu,
            add16(word(args[0], args[1]), cpu.register_x as int),
        ),
        AddressingMode::Absolute_Y => shown_indexed(
            cpu,
            add16(word(args[0], args[1]), cpu.register_y as int),
        ),
        AddressingMode::ZeroPage => shown_value(cpu, args[0] as u16),
        AddressingMode::ZeroPage_X => shown_zero_page(cpu, add8(args[0], cpu.register_x)),
        AddressingMode::ZeroPage_Y => shown_zero_page(cpu, add8(args[0], cpu.register_y)),
        AddressingMode::Indirect_X => shown_indirect_x(cpu, add8(args[0], cpu.register_x)),
        AddressingMode::Indirect_Y => shown_indirect_y(cpu, args[0]),
        _ => (cpu, Seq::empty()),
    }
}

/// The memory that an instruction works on, and the processor after the
/// trace has read it.
pub open spec fn memory_access_text(cpu: CpuView, ops: Decoded, args: Seq<u8>) -> (
    CpuView,
    Seq<char>,
) {
    if is_jump(ops.instruction) {
        jump_access_text(cpu, ops.addressing_mode, args)
    } else {
        operand_access_text(cpu, ops.addressing_mode, args)
    }
}

fn push_value(out: &mut Vec<char>, value: u8)
    ensures
        final(out)@ == old(out)@ + value_text(value),
{
    out.push('=');
    out.push(' ');
    push_hex2(out, value);
    assert(out@ =~= old(out)@ + value_text(value));
}

fn value_chars(value: u8) -> (text: Vec<char>)
    ensures
        text@ == value_text(value),
{
    let mut text: Vec<char> = Vec::new();
    push_value(&mut text, value);
    assert(text@ =~= value_text(value));
    text
}

fn indexed_chars(addr: &Vec<char>, value: u8) -> (text: Vec<char>)
    ensures
        text@ == indexed_text(addr@, value),
{
    let mut text: Vec<char> = Vec::new();
    text.push('@');
    text.push(' ');
    push_all(&mut text, addr);
    text.push(' ');
    push_value(&mut text, value);
    assert(text@ =~= indexed_text(addr@, value));
    text
}

fn hex2_chars(value: u8) -> (text: Vec<char>)
    ensures
        text@ == hex2(value),
{
    let mut text: Vec<char> = Vec::new();
    push_hex2(&mut text, value);
    assert(text@ =~= hex2(value));
    text
}

fn hex4_chars(value: u16) -> (text: Vec<char>)
    ensures
        text@ == hex4(value),
{
    let mut text: Vec<char> = Vec::new();
    push_hex4(&mut text, value);
    assert(text@ =~= hex4(value));
    text
}

fn target_chars(value: u16) -> (text: Vec<char>)
    ensures
        text@ == seq!['=', ' '] + hex4(value),
{
    let mut text: Vec<char> = Vec::new();
    text.push('=');
    text.push(' ');
    push_hex4(&mut text, value);
    assert(text@ =~= seq!['=', ' '] + hex4(value));
    text
}

fn indirect_x_chars(ptr: u8, addr: u16, value: u8) -> (text: Vec<char>)
    ensures
        text@ == indexed_text(hex2(ptr) + seq![' ', '=', ' '] + hex4(addr), value),
{
    let mut found: Vec<char> = Vec::new();
    push_hex2(&mut found, ptr);
    found.push(' ');
    found.push('=');
    found.push(' ');
    push_hex4(&mut found, addr);
    assert(found@ =~= hex2(ptr) + seq![' ', '=', ' '] + hex4(addr));
    indexed_chars(&found, value)
}

fn indirect_y_chars(deref_base: u16, deref: u16, value: u8) -> (text: Vec<char>)
    ensures
        text@ == seq!['=', ' '] + hex4(deref_base) + seq![' '] + indexed_text(hex4(deref), value),
{
    let mut text = target_chars(deref_base);
    text.push(' ');
    let at = indexed_chars(&hex4_chars(deref), value);
    push_all(&mut text, &at);
    assert(text@ =~= seq!['=', ' '] + hex4(deref_base) + seq![' '] + indexed_text(
        hex4(deref),
        value,
    ));
    text
}

fn show_value(cpu: &mut CPU, addr: u16) -> (text: Vec<char>)
    requires
        old(cpu)@.bus.wf(),
    ensures
        final(cpu)@ == shown_value(old(cpu)@, addr).0,
        text@ == shown_value(old(cpu)@, addr).1,
        final(cpu)@.bus.wf(),
        final(cpu)@.bus.mapper == old(cpu)@.bus.mapper,
{
    proof {
        reveal(shown_value);
    }
    let value = cpu.mem_read(addr);
    value_chars(value)
}

fn show_indexed(cpu: &mut CPU, addr: u16) -> (text: Vec<char>)
    requires
        old(cpu)@.bus.wf(),
    ensures
        final(cpu)@ == shown_indexed(old(cpu)@, addr).0,
        text@ == shown_indexed(old(cpu)@, addr).1,
        final(cpu)@.bus.wf(),
        final(cpu)@.bus.mapper == old(cpu)@.bus.mapper,
{
    proof {
        reveal(shown_indexed);
    }
    let value = cpu.mem_read(addr);
    indexed_chars(&hex4_chars(addr), value)
}

fn show_zero_page(cpu: &mut CPU, addr: u8) -> (text: Vec<char>)
    requires
        old(cpu)@.bus.wf(),
    ensures
        final(cpu)@ == shown_zero_page(old(cpu)@, addr).0,
        text@ == shown_zero_page(old(cpu)@, addr).1,
        final(cpu)@.bus.wf(),
        final(cpu)@.bus.mapper == old(cpu)@.bus.mapper,
{
    proof {
        reveal(shown_zero_page);
    }
    let value = cpu.mem_read(addr as u16);
    indexed_chars(&hex2_chars(addr), value)
}

fn show_target(cpu: &mut CPU, addr: u16) -> (text: Vec<char>)
    requires
        old(cpu)@.bus.wf(),
    ensures
        final(cpu)@ == shown_target(old(cpu)@, addr).0,
        text@ == shown_target(old(cpu)@, addr).1,
        final(cpu)@.bus.wf(),
        final(cpu)@.bus.mapper == old(cpu)@.bus.mapper,
{
    proof {
        reveal(shown_target);
    }
    let value = cpu.mem_read_u16(addr);
    target_chars(value)
}

fn show_indirect_x(cpu: &mut CPU, ptr: u8) -> (text: Vec<char>)
    requires
        old(cpu)@.bus.wf(),
    ensures
        final(cpu)@ == shown_indirect_x(old(cpu)@, ptr).0,
        text@ == shown_indirect_x(old(cpu)@, ptr).1,
        final(cpu)@.bus.wf(),
        final(cpu)@.bus.mapper == old(cpu)@.bus.mapper,
{
    proof {
        reveal(shown_indirect_x);
    }
    let addr = cpu.mem_read_u16(ptr as u16);
    let value = cpu.mem_read(addr);
    indirect_x_chars(ptr, addr, value)
}

fn show_indirect_y(cpu: &mut CPU, base: u8) -> (text: Vec<char>)
    requires
        old(cpu)@.bus.wf(),
    ensures
        final(cpu)@ == shown_indirect_y(old(cpu)@, base).0,
        text@ == shown_indirect_y(old(cpu)@, base).1,
        final(cpu)@.bus.wf(),
        final(cpu)@.bus.mapper == old(cpu)@.bus.mapper,
{
    proof {
        reveal(shown_indirect_y);
    }
    let index = cpu.register_y;
    let deref_base = cpu.mem_read_u16(base as u16);
    let ghost found = cpu@;
    assert(found == old(cpu)@.read_u16(base as u16).0);
    assert(deref_base == old(cpu)@.read_u16(base as u16).1);
    let deref = deref_base.wrapping_add(index as u16);
    assert(deref == add16(deref_base, index as int));
    let value = cpu.mem_read(deref);
    assert(cpu@ == found.read(deref).0);
    assert(value == found.read(deref).1);
    indirect_y_chars(deref_base, deref, value)
}

fn jump_access_chars(cpu: &mut CPU, mode: &AddressingMode, args: &Vec<u8>) -> (text: Vec<char>)
    requires
        old(cpu)@.bus.wf(),
        args@.len() >= operand_bytes(*mode),
    ensures
        final(cpu)@ == jump_access_text(old(cpu)@, *mode, args@).0,
        text@ == jump_access_text(old(cpu)@, *mode, args@).1,
        final(cpu)@.bus.wf(),
        final(cpu)@.bus.mapper == old(cpu)@.bus.mapper,
{
    proof {
        reveal(jump_access_text);
    }
    match mode {
        AddressingMode::Indirect => {
            return show_target(cpu, make_word(args[0], args[1]));
        },
        _ => {
            return Vec::new();
        },
    }
}

fn operand_access_chars(cpu: &mut CPU, mode: &AddressingMode, args: &Vec<u8>) -> (text: Vec<char>)
    requires
        old(cpu)@.bus.wf(),
        args@.len() >= operand_bytes(*mode),
    ensures
        final(cpu)@ == operand_access_text(old(cpu)@, *mode, args@).0,
        text@ == operand_access_text(old(cpu)@, *mode, args@).1,
        final(cpu)@.bus.wf(),
        final(cpu)@.bus.mapper == old(cpu)@.bus.mapper,
{
    proof {
        reveal(operand_access_text);
    }
    match mode {
        AddressingMode::Absolute => {
            return show_value(cpu, make_word(args[0], args[1]));
        },
        AddressingMode::Absolute_X => {
            let addr = make_word(args[0], args[1]).wrapping_add(cpu.register_x as u16);
            return show_indexed(cpu, addr);
        },
        AddressingMode::Absolute_Y => {
            let addr = make_word(args[0], args[1]).wrapping_add(cpu.register_y as u16);
            return show_indexed(cpu, addr);
        },
        AddressingMode::ZeroPage => {
            return show_value(cpu, args[0] as u16);
        },
        AddressingMode::ZeroPage_X => {
            let addr = args[0].wrapping_add(cpu.register_x);
            return show_zero_page(cpu, addr);
        },
        AddressingMode::ZeroPage_Y => {
            let addr = args[0].wrapping_add(cpu.register_y);
            return show_zero_page(cpu, addr);
        },
        AddressingMode::Indirect_X => {
            let ptr: u8 = args[0].wrapping_add(cpu.register_x);
            return show_indirect_x(cpu, ptr);
        },
        AddressingMode::Indirect_Y => {
            return show_indirect_y(cpu, args[0]);
        },
        _ => {
            return Vec::new();
        },
    }
}

fn memory_access_chars(cpu: &mut CPU, ops: &Decoded, args: &Vec<u8>) -> (text: Vec<char>)
    requires
        old(cpu)@.bus.wf(),
        ops.wf(),
        args@.len() >= ops.bytes - 1,
    ensures
        final(cpu)@ == memory_access_text(old(cpu)@, *ops, args@).0,
        text@ == memory_access_text(old(cpu)@, *ops, args@).1,
        final(cpu)@.bus.wf(),
        final(cpu)@.bus.mapper == old(cpu)@.bus.mapper,
{
    match ops.instruction {
        Instruction::Jmp | Instruction::Jsr => jump_access_chars(cpu, &ops.addressing_mode, args),
        _ => operand_access_chars(cpu, &ops.addressing_mode, args),
    }
}

/// Joins the two bytes of a word, low byte first.
pub fn make_word(lo: u8, hi: u8) -> (value: u16)
    ensures
        value == word(lo, hi),
{
    proof {
        crate::cpu::lemma_word_bytes(lo, hi, 0);
    }
    ((hi as u16) << 8) | (lo as u16)
}

/// The memory that an instruction works on, as text. The reads are reads
/// of the bus like any others.
pub fn memory_access(cpu: &mut CPU, ops: &Decoded, args: &Vec<u8>) -> (text: String)
    requires
        old(cpu)@.bus.wf(),
        ops.wf(),
        args@.len() >= ops.bytes - 1,
    ensures
        final(cpu)@ == memory_access_text(old(cpu)@, *ops, args@).0,
        text@ == memory_access_text(old(cpu)@, *ops, args@).1,
        final(cpu)@.bus.wf(),
        final(cpu)@.bus.mapper == old(cpu)@.bus.mapper,
{
    to_string(&memory_access_chars(cpu, ops, args))
}

/// The processor after the trace has read the `n` bytes that follow the
/// byte at `at`, and the bytes.
pub open spec fn read_args(cpu: CpuView, at: u16, n: nat) -> (CpuView, Seq<u8>)
    decreases n,
{
    if n == 0 {
        (cpu, Seq::empty())
    } else {
        let (before, bytes) = read_args(cpu, at, (n - 1) as nat);
        let (after, byte) = before.read(add16(at, n as int));
        (after, bytes.push(byte))
    }
}

/// Where the instruction begins that the processor has fetched: one
/// before the program counter.
pub open spec fn traced_address(cpu: CpuView) -> u16 {
    add16(cpu.program_counter, -1)
}

/// The opcode that the trace reads again.
pub open spec fn traced_opcode(cpu: CpuView) -> u8 {
    cpu.read(traced_address(cpu)).1
}

/// True when the trace can show the instruction that the processor has
/// fetched: its opcode stands for an instruction.
pub open spec fn traceable(cpu: CpuView) -> bool {
    spec_decode(traced_opcode(cpu)) is Some
}

/// The line of the trace for the instruction that the processor has
/// fetched, and the processor after the trace has read what it shows: the
/// address in a column of 6, the bytes in a column of 9, the assembly form
/// and the memory in a column of 33, and the registers as they are before
/// the instruction.
pub open spec fn trace_text(cpu: CpuView) -> (CpuView, Seq<char>) {
    let at = traced_address(cpu);
    let (fetched, op) = cpu.read(at);
    let ops = spec_decode(op).unwrap();
    let (read, args) = read_args(fetched, at, (ops.bytes - 1) as nat);
    let (after, memory) = memory_access_text(read, ops, args);
    (
        after,
        padded(hex4(at), 6) + padded(binary_text(op, args), 9) + padded(
            disasm_text(at, ops, args) + seq![' '] + memory,
            33,
        ) + registers_text(after),
    )
}

/// Makes the line of the trace for the instruction that the processor has
/// fetched and is about to perform.
pub fn trace(cpu: &mut CPU) -> (log: String)
    requires
        old(cpu)@.bus.wf(),
        traceable(old(cpu)@),
    ensures
        final(cpu)@ == trace_text(old(cpu)@).0,
        log@ == trace_text(old(cpu)@).1,
        final(cpu)@.bus.wf(),
        final(cpu)@.bus.mapper == old(cpu)@.bus.mapper,
{
    let program_counter = cpu.program_counter.wrapping_sub(1);
    let op = cpu.mem_read(program_counter);
    let ops = decode(op).unwrap();
    let ghost fetched = cpu@;
    let mut args: Vec<u8> = Vec::new();
    let mut n: u16 = 1;
    while n < ops.bytes
        invariant
            1 <= n <= ops.bytes,
            ops.bytes <= 3,
            cpu@.bus.wf(),
            cpu@.bus.mapper == old(cpu)@.bus.mapper,
            cpu@ == read_args(fetched, program_counter, (n - 1) as nat).0,
            args@ == read_args(fetched, program_counter, (n - 1) as nat).1,
        decreases ops.bytes - n,
    {
        let arg = cpu.mem_read(program_counter.wrapping_add(n));
        args.push(arg);
        n += 1;
    }
    proof {
        lemma_read_args_len(fetched, program_counter, (ops.bytes - 1) as nat);
    }
    let mut line: Vec<char> = Vec::new();
    push_hex4(&mut line, program_counter);
    assert(line@ =~= hex4(program_counter));
    pad(&mut line, 6);
    let mut bin = binary_chars(op, &args);
    pad(&mut bin, 9);
    push_all(&mut line, &bin);
    let mut assembly = disasm_chars(program_counter, &ops, &args);
    let memacc = memory_access_chars(cpu, &ops, &args);
    assembly.push(' ');
    push_all(&mut assembly, &memacc);
    pad(&mut assembly, 33);
    push_all(&mut line, &assembly);
    let status = registers_chars(cpu);
    push_all(&mut line, &status);
    to_string(&line)
}

/// The trace reads as many bytes as it is asked to.
pub proof fn lemma_read_args_len(cpu: CpuView, at: u16, n: nat)
    ensures
        read_args(cpu, at, n).1.len() == n,
    decreases n,
{
    if n > 0 {
        lemma_read_args_len(cpu, at, (n - 1) as nat);
    }
}

} // verus!
