//! Cartridge mappers: how a cartridge's memory appears in the processor's
//! and the picture unit's address spaces, and how writes switch its banks.
use vstd::prelude::*;
use crate::rom::{Mirroring, Rom};

verus! {

/// Where program ROM begins in the processor's address space.
pub const PRG_ROM_BASE: u16 = 0x8000;

/// Where program RAM begins in the processor's address space.
pub const PRG_RAM_BASE: u16 = 0x6000;

/// Size of the program RAM of the mappers that have one.
pub const PRG_RAM_SIZE: usize = 8192;

/// The place of a byte in a banked memory: `offset` bytes into bank number
/// `bank` of banks of `bank_size` bytes.
pub open spec fn banked(offset: int, bank_size: int, bank: int) -> int {
    offset + bank_size * bank
}

/// The place of a byte in a banked memory of `len` bytes, if it lies in it.
pub fn locate(len: usize, offset: usize, bank_size: usize, bank: usize) -> (place: Option<usize>)
    ensures
        place is Some <==> banked(offset as int, bank_size as int, bank as int) < len,
        place matches Some(p) ==> p == banked(offset as int, bank_size as int, bank as int),
{
    assert(0 <= bank_size as int * bank as int <= 0xFFFF_FFFF_FFFF_FFFF * 0xFFFF_FFFF_FFFF_FFFF)
        by (nonlinear_arith)
        requires
            0 <= bank_size <= 0xFFFF_FFFF_FFFF_FFFF,
            0 <= bank <= 0xFFFF_FFFF_FFFF_FFFF,
    ;
    let place: u128 = offset as u128 + bank_size as u128 * bank as u128;
    if place < len as u128 {
        Some(place as usize)
    } else {
        None
    }
}

/// What the bus and the picture unit see of a cartridge.
pub trait Mapper: Send + Sized {
    /// The mapper's own invariant.
    spec fn wf(&self) -> bool;

    /// The mapper's number in the iNES scheme.
    spec fn kind(&self) -> u8;

    /// The cartridge that the mapper holds.
    spec fn cartridge(&self) -> Rom;

    spec fn spec_mirroring(&self) -> Mirroring;

    /// True when program RAM can be read and written at the address.
    spec fn prg_ram_mapped(&self, addr: u16) -> bool;

    spec fn spec_read_prg_ram(&self, addr: u16) -> u8;

    /// True when program ROM can be read at the address with the banks as
    /// they are selected now.
    spec fn prg_rom_mapped(&self, addr: u16) -> bool;

    spec fn spec_read_prg_rom(&self, addr: u16) -> u8;

    /// True when character memory can be read and written at the address
    /// with the banks as they are selected now.
    spec fn chr_rom_mapped(&self, addr: u16) -> bool;

    spec fn spec_read_chr_rom(&self, addr: u16) -> u8;

    /// True while the mapper asks for an interrupt.
    spec fn irq_raised(&self) -> bool;

    /// The mapper after a write into the program ROM's address range.
    spec fn spec_write(&self, addr: u16, data: u8) -> Self;

    /// The mapper after the picture unit has begun a scanline.
    spec fn spec_scanline(&self, scanline: usize, show_background: bool) -> Self;

    /// The mapper after it has given its interrupt request up.
    spec fn spec_answered(&self) -> Self;

    /// True when `after` is this mapper after a write of `data` to its
    /// program RAM at `addr`.
    spec fn wrote_prg_ram(&self, addr: u16, data: u8, after: &Self) -> bool;

    /// True when `after` is this mapper after a write of `value` to its
    /// character memory at `addr`.
    spec fn wrote_chr_rom(&self, addr: u16, value: u8, after: &Self) -> bool;

    /// True when `after` is this mapper after it has taken saved contents
    /// of its program RAM.
    spec fn loaded(&self, raw: Seq<u8>, after: &Self) -> bool;

    /// True when `after` is this mapper after it has taken a cartridge.
    spec fn took_rom(&self, rom: Rom, after: &Self) -> bool;

    fn set_rom(&mut self, rom: Rom)
        requires
            old(self).wf(),
        ensures
            old(self).took_rom(rom, final(self)),
            final(self).wf(),
            final(self).kind() == old(self).kind(),
            final(self).cartridge() == rom,
    ;

    fn is_chr_ram(&self) -> (chr_ram: bool)
        ensures
            chr_ram == self.cartridge().is_chr_ram,
    ;

    /// A write into the program ROM's address range, which the mapper
    /// takes as a command.
    fn write(&mut self, addr: u16, data: u8)
        requires
            old(self).wf(),
            addr >= PRG_ROM_BASE,
        ensures
            *final(self) == old(self).spec_write(addr, data),
            final(self).wf(),
            final(self).kind() == old(self).kind(),
            final(self).cartridge() == old(self).cartridge(),
    ;

    fn mirroring(&self) -> (mirroring: Mirroring)
        ensures
            mirroring == self.spec_mirroring(),
    ;

    fn can_access_prg_ram(&self, addr: u16) -> (ok: bool)
        ensures
            ok == self.prg_ram_mapped(addr),
    ;

    fn write_prg_ram(&mut self, addr: u16, data: u8)
        requires
            old(self).wf(),
            old(self).prg_ram_mapped(addr),
        ensures
            old(self).wrote_prg_ram(addr, data, final(self)),
            final(self).wf(),
            final(self).kind() == old(self).kind(),
            final(self).cartridge() == old(self).cartridge(),
            forall|a: u16| final(self).prg_ram_mapped(a) == old(self).prg_ram_mapped(a),
            forall|a: u16| final(self).prg_rom_mapped(a) == old(self).prg_rom_mapped(a),
            forall|a: u16| final(self).spec_read_prg_rom(a) == old(self).spec_read_prg_rom(a),
    ;

    fn read_prg_ram(&self, addr: u16) -> (data: u8)
        requires
            self.prg_ram_mapped(addr),
        ensures
            data == self.spec_read_prg_ram(addr),
    ;

    fn load_prg_ram(&mut self, raw: &Vec<u8>)
        requires
            old(self).wf(),
        ensures
            old(self).loaded(raw@, final(self)),
            final(self).wf(),
            final(self).kind() == old(self).kind(),
            final(self).cartridge() == old(self).cartridge(),
    ;

    fn can_read_prg_rom(&self, addr: u16) -> (ok: bool)
        ensures
            ok == self.prg_rom_mapped(addr),
    ;

    fn read_prg_rom(&self, addr: u16) -> (data: u8)
        requires
            self.prg_rom_mapped(addr),
        ensures
            data == self.spec_read_prg_rom(addr),
    ;

    fn can_access_chr_rom(&self, addr: u16) -> (ok: bool)
        ensures
            ok == self.chr_rom_mapped(addr),
    ;

    fn write_chr_rom(&mut self, addr: u16, value: u8)
        requires
            old(self).wf(),
            old(self).chr_rom_mapped(addr),
        ensures
            old(self).wrote_chr_rom(addr, value, final(self)),
            final(self).wf(),
            final(self).kind() == old(self).kind(),
            final(self).cartridge().prg_rom == old(self).cartridge().prg_rom,
            forall|a: u16| final(self).chr_rom_mapped(a) == old(self).chr_rom_mapped(a),
            forall|a: u16| final(self).prg_rom_mapped(a) == old(self).prg_rom_mapped(a),
            forall|a: u16| final(self).spec_read_prg_rom(a) == old(self).spec_read_prg_rom(a),
    ;

    fn read_chr_rom(&self, addr: u16) -> (data: u8)
        requires
            self.chr_rom_mapped(addr),
        ensures
            data == self.spec_read_chr_rom(addr),
    ;

    /// Tells the mapper that the picture unit has begun a scanline.
    fn scanline(&mut self, scanline: usize, show_background: bool)
        requires
            old(self).wf(),
        ensures
            *final(self) == old(self).spec_scanline(scanline, show_background),
            final(self).wf(),
            final(self).kind() == old(self).kind(),
            final(self).cartridge() == old(self).cartridge(),
    ;

    /// Returns whether the mapper asks for an interrupt, and takes the
    /// request back.
    fn is_irq(&mut self) -> (irq: bool)
        requires
            old(self).wf(),
        ensures
            *final(self) == old(self).spec_answered(),
            final(self).wf(),
            irq == old(self).irq_raised(),
            !final(self).irq_raised(),
            final(self).kind() == old(self).kind(),
            final(self).cartridge() == old(self).cartridge(),
    ;
}

/// True when program ROM can be read at every address of its range.
pub open spec fn covers_prg_rom<M: Mapper>(mapper: &M) -> bool {
    forall|addr: u16| addr >= PRG_ROM_BASE ==> mapper.prg_rom_mapped(addr)
}

/// Tests whether program ROM can be read at every address of its range.
pub fn check_covers_prg_rom<M: Mapper>(mapper: &M) -> (ok: bool)
    ensures
        ok == covers_prg_rom(mapper),
{
    let mut addr: u16 = PRG_ROM_BASE;
    loop
        invariant
            addr >= PRG_ROM_BASE,
            forall|a: u16| PRG_ROM_BASE <= a < addr ==> mapper.prg_rom_mapped(a),
        decreases 0xFFFF - addr,
    {
        if !mapper.can_read_prg_rom(addr) {
            return false;
        }
        if addr == 0xFFFF {
            return true;
        }
        addr += 1;
    }
}

/// Mapper 0: no bank switching. A single page of program ROM appears twice.
pub struct Mapper0 {
    pub rom: Rom,
}

impl Mapper0 {
    /// A mapper at power-on, which holds a cartridge with nothing in it.
    pub fn new() -> (mapper: Self)
        ensures
            mapper.rom.holds_nothing(),
            mapper.wf(),
    {
        Mapper0 { rom: Rom::empty() }
    }

    /// The place in program ROM that an address reads.
    pub open spec fn prg_index(&self, addr: u16) -> int {
        if self.rom.prg_rom@.len() == 0x4000 {
            addr as int % 0x4000
        } else {
            addr - PRG_ROM_BASE
        }
    }
}

impl Mapper for Mapper0 {
    open spec fn wf(&self) -> bool {
        true
    }

    open spec fn kind(&self) -> u8 {
        0
    }

    open spec fn cartridge(&self) -> Rom {
        self.rom
    }

    open spec fn spec_mirroring(&self) -> Mirroring {
        self.rom.screen_mirroring
    }

    open spec fn prg_ram_mapped(&self, addr: u16) -> bool {
        true
    }

    open spec fn spec_read_prg_ram(&self, addr: u16) -> u8 {
        0
    }

    open spec fn prg_rom_mapped(&self, addr: u16) -> bool {
        addr >= PRG_ROM_BASE && self.prg_index(addr) < self.rom.prg_rom@.len()
    }

    open spec fn spec_read_prg_rom(&self, addr: u16) -> u8 {
        self.rom.prg_rom@[self.prg_index(addr)]
    }

    open spec fn chr_rom_mapped(&self, addr: u16) -> bool {
        addr < self.rom.chr_rom@.len()
    }

    open spec fn spec_read_chr_rom(&self, addr: u16) -> u8 {
        self.rom.chr_rom@[addr as int]
    }

    open spec fn irq_raised(&self) -> bool {
        false
    }

    open spec fn wrote_chr_rom(&self, addr: u16, value: u8, after: &Self) -> bool {
        *after == *self
    }

    open spec fn loaded(&self, raw: Seq<u8>, after: &Self) -> bool {
        *after == *self
    }

    open spec fn took_rom(&self, rom: Rom, after: &Self) -> bool {
        after.rom == rom
    }

    open spec fn wrote_prg_ram(&self, addr: u16, data: u8, after: &Self) -> bool {
        *after == *self
    }

    open spec fn spec_write(&self, addr: u16, data: u8) -> Self {
        *self
    }

    open spec fn spec_scanline(&self, scanline: usize, show_background: bool) -> Self {
        *self
    }

    open spec fn spec_answered(&self) -> Self {
        *self
    }

    fn is_chr_ram(&self) -> (chr_ram: bool) {
        self.rom.is_chr_ram
    }

    fn set_rom(&mut self, rom: Rom) {
        self.rom = rom;
    }

    fn write(&mut self, _addr: u16, _data: u8)
    {
    }

    fn mirroring(&self) -> (mirroring: Mirroring) {
        self.rom.screen_mirroring
    }

    fn can_access_prg_ram(&self, _addr: u16) -> (ok: bool) {
        true
    }

    fn write_prg_ram(&mut self, _addr: u16, _data: u8)
    {
    }

    fn read_prg_ram(&self, _addr: u16) -> (data: u8) {
        0
    }

    fn load_prg_ram(&mut self, _raw: &Vec<u8>)
    {
    }

    fn can_read_prg_rom(&self, addr: u16) -> (ok: bool) {
        if addr < PRG_ROM_BASE {
            return false;
        }
        let mut mirror_addr = addr - PRG_ROM_BASE;
        if self.rom.prg_rom.len() == 0x4000 {
            mirror_addr = addr % 0x4000;
        }
        (mirror_addr as usize) < self.rom.prg_rom.len()
    }

    fn read_prg_rom(&self, addr: u16) -> (data: u8) {
        let mut mirror_addr = addr - PRG_ROM_BASE;
        if self.rom.prg_rom.len() == 0x4000 {
            mirror_addr = addr % 0x4000;
        }
        self.rom.prg_rom[mirror_addr as usize]
    }

    fn can_access_chr_rom(&self, addr: u16) -> (ok: bool) {
        (addr as usize) < self.rom.chr_rom.len()
    }

    fn write_chr_rom(&mut self, _addr: u16, _value: u8)
    {
    }

    fn read_chr_rom(&self, addr: u16) -> (data: u8) {
        self.rom.chr_rom[addr as usize]
    }

    fn scanline(&mut self, _scanline: usize, _show_background: bool)
    {
    }

    fn is_irq(&mut self) -> (irq: bool)
    {
        false
    }
}

/// What the masks and shifts on the mappers' registers amount to.
pub proof fn lemma_register_fields(value: u8)
    by (bit_vector)
    ensures
        value & 0x0F <= 15,
        (value & 0x0F) | 0x10 <= 31,
        value & 0x1E <= 30,
        value & 0x03 <= 3,
        value & 0x07 <= 7,
        (value & 0x0C) >> 2 <= 3,
        value >> 1 <= 127,
        value <= 0x1F ==> (value >> 1) | ((value & 0x01) << 4) <= 0x1F,
        forall|bit: u8| value <= 0x1F && bit <= 1 ==> (value >> 1) | (bit << 4) <= 0x1F,
        value & 0x01 <= 1,
{
}

/// Mapper 1: a serial shift register, filled by five writes, sets one of
/// four internal registers; these select the program bank and the
/// mirroring. It has 8 KiB of program RAM.
pub struct Mapper1 {
    pub rom: Rom,
    pub prg_ram: Vec<u8>,
    pub shift_register: u8,
    /// Writes taken into the shift register so far, 0 to 4.
    pub shift_count: u8,
    /// Internal register for the addresses $8000 to $9FFF.
    pub control: u8,
    /// Internal register for the addresses $A000 to $BFFF.
    pub chr_bank0: u8,
    /// Internal register for the addresses $C000 to $DFFF.
    pub chr_bank1: u8,
    /// Internal register for the addresses $E000 to $FFFF.
    pub prg_bank: u8,
}

impl Mapper1 {
    /// True when another mapper has the same registers.
    pub open spec fn same_registers(&self, other: &Self) -> bool {
        &&& other.shift_register == self.shift_register
        &&& other.shift_count == self.shift_count
        &&& other.control == self.control
        &&& other.chr_bank0 == self.chr_bank0
        &&& other.chr_bank1 == self.chr_bank1
        &&& other.prg_bank == self.prg_bank
    }

    /// A mapper at power-on, which holds a cartridge with nothing in it.
    pub fn new() -> (mapper: Self)
        ensures
            mapper.wf(),
            mapper.rom.holds_nothing(),
            mapper.prg_ram@ == blank_prg_ram(),
            mapper.shift_register == 0x10,
            mapper.shift_count == 0,
            mapper.control == 0x0C,
            mapper.chr_bank0 == 0,
            mapper.chr_bank1 == 0,
            mapper.prg_bank == 0,
    {
        let prg_ram: Vec<u8> = vec![0xFF; PRG_RAM_SIZE];
        assert(prg_ram@ =~= Seq::new(PRG_RAM_SIZE as nat, |i: int| 0xFFu8));
        Mapper1 {
            rom: Rom::empty(),
            prg_ram,
            shift_register: 0x10,
            shift_count: 0,
            control: 0x0C,
            chr_bank0: 0,
            chr_bank1: 0,
            prg_bank: 0,
        }
    }

    /// Empties the shift register.
    pub fn reset(&mut self)
        ensures
            final(self).shift_register == 0x10,
            final(self).shift_count == 0,
            final(self).rom == old(self).rom,
            final(self).prg_ram == old(self).prg_ram,
            final(self).control == old(self).control,
            final(self).chr_bank0 == old(self).chr_bank0,
            final(self).chr_bank1 == old(self).chr_bank1,
            final(self).prg_bank == old(self).prg_bank,
    {
        self.shift_register = 0x10;
        self.shift_count = 0;
    }

    /// The place in character memory that an address reads: on this board
    /// the address itself.
    pub fn chr_rom_addr(&self, addr: u16) -> (place: usize)
        ensures
            place == addr,
    {
        addr as usize
    }

    /// The number of whole 16 KiB banks of program ROM.
    pub open spec fn prg_bank_count(&self) -> int {
        self.rom.prg_rom@.len() as int / 0x4000
    }

    /// True when bit 4 of the first character bank register selects the
    /// upper 256 KiB of program ROM.
    pub open spec fn upper_half(&self) -> bool {
        self.chr_bank0 & 0x10 != 0
    }

    /// The program bank that the registers select.
    pub open spec fn selected_bank(&self) -> u8 {
        if self.upper_half() {
            (self.prg_bank & 0x0F) | 0x10
        } else {
            self.prg_bank & 0x0F
        }
    }

    /// The first bank of the selected half of program ROM.
    pub open spec fn first_bank(&self) -> int {
        if self.upper_half() {
            0x10
        } else {
            0
        }
    }

    /// The last bank of program ROM, moved into the selected half.
    pub open spec fn last_bank(&self) -> usize {
        if self.upper_half() {
            ((self.prg_bank_count() - 1) as usize) | 0x10
        } else {
            ((self.prg_bank_count() - 1) as usize) & 0x0F
        }
    }

    /// The program bank mode in bits 2 and 3 of the control register.
    pub open spec fn prg_mode(&self) -> u8 {
        (self.control & 0x0C) >> 2
    }

    /// The place in program ROM that an address reads. In modes 0 and 1
    /// one 32 KiB bank appears at $8000; in mode 2 the first bank is fixed
    /// at $8000 and the selected one appears at $C000; in mode 3 the
    /// selected bank appears at $8000 and the last one is fixed at $C000.
    pub open spec fn prg_index(&self, addr: u16) -> int {
        if self.prg_mode() <= 1 {
            banked(addr - 0x8000, 0x4000, (self.selected_bank() & 0x1E) as int)
        } else if self.prg_mode() == 2 {
            if addr < 0xC000 {
                banked(addr - 0x8000, 0x4000, self.first_bank())
            } else {
                banked(addr - 0xC000, 0x4000, self.selected_bank() as int)
            }
        } else {
            if addr < 0xC000 {
                banked(addr - 0x8000, 0x4000, self.selected_bank() as int)
            } else {
                banked(addr - 0xC000, 0x4000, self.last_bank() as int)
            }
        }
    }

    /// The place in program ROM that an address reads, if there is one.
    fn prg_place(&self, addr: u16) -> (place: Option<usize>)
        requires
            addr >= PRG_ROM_BASE,
        ensures
            place is Some <==> self.prg_bank_count() >= 1 && self.prg_index(addr)
                < self.rom.prg_rom@.len(),
            place matches Some(p) ==> p == self.prg_index(addr),
    {
        let bank_size: usize = 0x4000;
        let len = self.rom.prg_rom.len();
        let bank_max: usize = len / bank_size;
        if bank_max < 1 {
            return None;
        }
        proof {
            lemma_register_fields(self.prg_bank);
            lemma_register_fields(self.control);
        }
        let upper = self.chr_bank0 & 0x10 != 0;
        let bank: u8 = if upper {
            (self.prg_bank & 0x0F) | 0x10
        } else {
            self.prg_bank & 0x0F
        };
        let first_bank: usize = if upper {
            0x10
        } else {
            0
        };
        let last_bank: usize = if upper {
            (bank_max - 1) | 0x10
        } else {
            (bank_max - 1) & 0x0F
        };
        match (self.control & 0x0C) >> 2 {
            0 | 1 => locate(len, (addr - 0x8000) as usize, bank_size, (bank & 0x1E) as usize),
            2 => {
                if addr < 0xC000 {
                    locate(len, (addr - 0x8000) as usize, bank_size, first_bank)
                } else {
                    locate(len, (addr - 0xC000) as usize, bank_size, bank as usize)
                }
            },
            _ => {
                if addr < 0xC000 {
                    locate(len, (addr - 0x8000) as usize, bank_size, bank as usize)
                } else {
                    locate(len, (addr - 0xC000) as usize, bank_size, last_bank)
                }
            },
        }
    }

    /// True for the addresses of program RAM at which a read gives a fixed
    /// value whatever the RAM holds.
    pub open spec fn fixed_prg_ram(addr: u16) -> bool {
        addr == 0x628E || 0x6007 <= addr <= 0x600B || 0x727E <= addr <= 0x727F
    }

    /// What a read gives at an address with a fixed value.
    pub open spec fn fixed_prg_ram_value(addr: u16) -> u8 {
        if addr == 0x628E {
            0x02
        } else if 0x6007 <= addr <= 0x600B {
            0xFF
        } else {
            0x00
        }
    }

    /// True when the address lies in the program RAM.
    pub open spec fn in_prg_ram(&self, addr: u16) -> bool {
        addr >= PRG_RAM_BASE && addr - PRG_RAM_BASE < self.prg_ram@.len()
    }

    /// The register that a completed serial write sets, by address: 0 for
    /// control, 1 and 2 for the character banks, 3 for the program bank.
    pub open spec fn target_register(addr: u16) -> int {
        if addr <= 0x9FFF {
            0
        } else if addr <= 0xBFFF {
            1
        } else if addr <= 0xDFFF {
            2
        } else {
            3
        }
    }

    /// The shift register after it has taken bit 0 of `data` at its top.
    pub open spec fn shifted(&self, data: u8) -> u8 {
        (self.shift_register >> 1) | ((data & 0x01) << 4)
    }
}

impl Mapper for Mapper1 {
    open spec fn wf(&self) -> bool {
        self.shift_count < 5
    }

    open spec fn kind(&self) -> u8 {
        1
    }

    open spec fn cartridge(&self) -> Rom {
        self.rom
    }

    open spec fn spec_mirroring(&self) -> Mirroring {
        if self.control & 0x03 == 0 || self.control & 0x03 == 2 {
            Mirroring::VERTICAL
        } else {
            Mirroring::HORIZONTAL
        }
    }

    open spec fn prg_ram_mapped(&self, addr: u16) -> bool {
        self.in_prg_ram(addr)
    }

    open spec fn spec_read_prg_ram(&self, addr: u16) -> u8 {
        if Self::fixed_prg_ram(addr) {
            Self::fixed_prg_ram_value(addr)
        } else {
            self.prg_ram@[addr - PRG_RAM_BASE]
        }
    }

    open spec fn prg_rom_mapped(&self, addr: u16) -> bool {
        addr == 0xC000 || (addr >= PRG_ROM_BASE && self.prg_bank_count() >= 1 && self.prg_index(
            addr,
        ) < self.rom.prg_rom@.len())
    }

    open spec fn spec_read_prg_rom(&self, addr: u16) -> u8 {
        if addr == 0xC000 {
            0x01
        } else {
            self.rom.prg_rom@[self.prg_index(addr)]
        }
    }

    open spec fn chr_rom_mapped(&self, addr: u16) -> bool {
        addr < self.rom.chr_rom@.len()
    }

    open spec fn spec_read_chr_rom(&self, addr: u16) -> u8 {
        self.rom.chr_rom@[addr as int]
    }

    open spec fn irq_raised(&self) -> bool {
        false
    }

    /// The byte is stored at the address itself; nothing else changes.
    open spec fn wrote_chr_rom(&self, addr: u16, value: u8, after: &Self) -> bool {
        &&& self.rom.chr_written(addr as int, value, &after.rom)
        &&& after.prg_ram == self.prg_ram
        &&& self.same_registers(after)
    }

    /// The program RAM is the saved contents, unless these are empty;
    /// nothing else changes.
    open spec fn loaded(&self, raw: Seq<u8>, after: &Self) -> bool {
        &&& after.prg_ram@ == if raw.len() == 0 {
            self.prg_ram@
        } else {
            raw
        }
        &&& after.rom == self.rom
        &&& self.same_registers(after)
    }

    /// The mapper holds the cartridge and has taken its saved contents.
    open spec fn took_rom(&self, rom: Rom, after: &Self) -> bool {
        &&& after.prg_ram@ == if rom.save_data@.len() == 0 {
            self.prg_ram@
        } else {
            rom.save_data@
        }
        &&& after.rom == rom
        &&& self.same_registers(after)
    }

    /// The byte is stored, also at the addresses at which a read gives a
    /// fixed value; nothing else changes.
    open spec fn wrote_prg_ram(&self, addr: u16, data: u8, after: &Self) -> bool {
        &&& after.prg_ram@ == self.prg_ram@.update(addr - PRG_RAM_BASE, data)
        &&& after.rom == self.rom
        &&& after.shift_register == self.shift_register
        &&& after.shift_count == self.shift_count
        &&& after.control == self.control
        &&& after.chr_bank0 == self.chr_bank0
        &&& after.chr_bank1 == self.chr_bank1
        &&& after.prg_bank == self.prg_bank
    }

    /// The mapper after a serial write: a set bit 7 empties the shift
    /// register; else the register takes bit 0, and the fifth bit completes
    /// a value, which goes to the register that the address selects.
    open spec fn spec_write(&self, addr: u16, data: u8) -> Self {
        let emptied = Mapper1 { shift_register: 0x10, shift_count: 0, ..*self };
        if data & 0x80 != 0 {
            emptied
        } else if self.shift_count < 4 {
            Mapper1 {
                shift_register: self.shifted(data),
                shift_count: (self.shift_count + 1) as u8,
                ..*self
            }
        } else if Self::target_register(addr) == 0 {
            Mapper1 { control: self.shifted(data), ..emptied }
        } else if Self::target_register(addr) == 1 {
            Mapper1 { chr_bank0: self.shifted(data), ..emptied }
        } else if Self::target_register(addr) == 2 {
            Mapper1 { chr_bank1: self.shifted(data), ..emptied }
        } else {
            Mapper1 { prg_bank: self.shifted(data), ..emptied }
        }
    }

    open spec fn spec_scanline(&self, scanline: usize, show_background: bool) -> Self {
        *self
    }

    open spec fn spec_answered(&self) -> Self {
        *self
    }

    fn is_chr_ram(&self) -> (chr_ram: bool) {
        self.rom.is_chr_ram
    }

    fn set_rom(&mut self, rom: Rom)
    {
        self.load_prg_ram(&rom.save_data);
        self.rom = rom;
    }

    /// Takes one bit into the shift register, or empties the register if
    /// bit 7 of `data` is set. The fifth bit completes a value, which is
    /// stored in the register that `addr` selects.
    fn write(&mut self, addr: u16, data: u8)
    {
        if data & 0x80 != 0 {
            self.reset();
            return ;
        }
        self.shift_register = self.shift_register >> 1;
        self.shift_register = self.shift_register | ((data & 0x01) << 4);
        self.shift_count += 1;
        if self.shift_count == 5 {
            match addr {
                0x8000..=0x9FFF => self.control = self.shift_register,
                0xA000..=0xBFFF => self.chr_bank0 = self.shift_register,
                0xC000..=0xDFFF => self.chr_bank1 = self.shift_register,
                _ => self.prg_bank = self.shift_register,
            }
            self.reset();
        }
    }

    fn mirroring(&self) -> (mirroring: Mirroring) {
        proof {
            lemma_register_fields(self.control);
        }
        match self.control & 0x03 {
            0 => Mirroring::VERTICAL,
            1 => Mirroring::HORIZONTAL,
            2 => Mirroring::VERTICAL,
            _ => Mirroring::HORIZONTAL,
        }
    }

    fn can_access_prg_ram(&self, addr: u16) -> (ok: bool) {
        addr >= PRG_RAM_BASE && ((addr - PRG_RAM_BASE) as usize) < self.prg_ram.len()
    }

    /// Stores a byte in program RAM. Keeping the RAM on disk is left to the
    /// caller, who finds it in `prg_ram`.
    fn write_prg_ram(&mut self, addr: u16, data: u8)
    {
        self.prg_ram[addr as usize - 0x6000] = data;
    }

    fn read_prg_ram(&self, addr: u16) -> (data: u8) {
        match addr {
            0x628E => {
                return 0x02;
            },
            0x6007..=0x600B => {
                return 0xFF;
            },
            0x727E..=0x727F => {
                return 0x00;
            },
            _ => {},
        }
        self.prg_ram[addr as usize - 0x6000]
    }

    /// Replaces the program RAM by saved contents, unless these are empty.
    fn load_prg_ram(&mut self, raw: &Vec<u8>)
    {
        if raw.is_empty() {
            return ;
        }
        self.prg_ram = raw.clone();
        assert(self.prg_ram@ =~= raw@);
    }

    fn can_read_prg_rom(&self, addr: u16) -> (ok: bool) {
        if addr == 0xC000 {
            return true;
        }
        if addr < PRG_ROM_BASE {
            return false;
        }
        self.prg_place(addr).is_some()
    }

    fn read_prg_rom(&self, addr: u16) -> (data: u8) {
        if addr == 0xC000 {
            return 0x01;
        }
        let place = self.prg_place(addr);
        self.rom.prg_rom[place.unwrap()]
    }

    fn can_access_chr_rom(&self, addr: u16) -> (ok: bool) {
        (addr as usize) < self.rom.chr_rom.len()
    }

    fn write_chr_rom(&mut self, addr: u16, value: u8)
    {
        self.rom.chr_rom[addr as usize] = value;
    }

    fn read_chr_rom(&self, addr: u16) -> (data: u8) {
        self.rom.chr_rom[addr as usize]
    }

    fn scanline(&mut self, _scanline: usize, _show_background: bool)
    {
    }

    fn is_irq(&mut self) -> (irq: bool)
    {
        false
    }
}

/// Mapper 2: a write selects the 16 KiB program bank at $8000; the last
/// bank is fixed at $C000.
pub struct Mapper2 {
    pub rom: Rom,
    pub bank_select: u8,
}

impl Mapper2 {
    /// A mapper at power-on, which holds a cartridge with nothing in it
    /// and has bank 0 selected.
    pub fn new() -> (mapper: Self)
        ensures
            mapper.rom.holds_nothing(),
            mapper.bank_select == 0,
            mapper.wf(),
    {
        Mapper2 { rom: Rom::empty(), bank_select: 0 }
    }

    /// The number of whole 16 KiB banks of program ROM.
    pub open spec fn prg_bank_count(&self) -> int {
        self.rom.prg_rom@.len() as int / 0x4000
    }

    /// The place in program ROM that an address reads.
    pub open spec fn prg_index(&self, addr: u16) -> int {
        if addr < 0xC000 {
            banked(addr - 0x8000, 0x4000, (self.bank_select & 0x0F) as int)
        } else {
            banked(addr - 0xC000, 0x4000, self.prg_bank_count() - 1)
        }
    }

    /// The place in program ROM that an address reads, if there is one.
    fn prg_place(&self, addr: u16) -> (place: Option<usize>)
        requires
            addr >= PRG_ROM_BASE,
        ensures
            place is Some <==> (addr >= 0xC000 ==> self.prg_bank_count() >= 1) && self.prg_index(
                addr,
            ) < self.rom.prg_rom@.len(),
            place matches Some(p) ==> p == self.prg_index(addr),
    {
        let bank_size: usize = 0x4000;
        let len = self.rom.prg_rom.len();
        let bank_max: usize = len / bank_size;
        if addr < 0xC000 {
            let bank = self.bank_select & 0x0F;
            locate(len, (addr - 0x8000) as usize, bank_size, bank as usize)
        } else {
            if bank_max < 1 {
                return None;
            }
            locate(len, (addr - 0xC000) as usize, bank_size, bank_max - 1)
        }
    }
}

impl Mapper for Mapper2 {
    open spec fn wf(&self) -> bool {
        true
    }

    open spec fn kind(&self) -> u8 {
        2
    }

    open spec fn cartridge(&self) -> Rom {
        self.rom
    }

    open spec fn spec_mirroring(&self) -> Mirroring {
        self.rom.screen_mirroring
    }

    open spec fn prg_ram_mapped(&self, addr: u16) -> bool {
        true
    }

    open spec fn spec_read_prg_ram(&self, addr: u16) -> u8 {
        0
    }

    open spec fn prg_rom_mapped(&self, addr: u16) -> bool {
        &&& addr >= PRG_ROM_BASE
        &&& addr >= 0xC000 ==> self.prg_bank_count() >= 1
        &&& self.prg_index(addr) < self.rom.prg_rom@.len()
    }

    open spec fn spec_read_prg_rom(&self, addr: u16) -> u8 {
        self.rom.prg_rom@[self.prg_index(addr)]
    }

    open spec fn chr_rom_mapped(&self, addr: u16) -> bool {
        addr < self.rom.chr_rom@.len()
    }

    open spec fn spec_read_chr_rom(&self, addr: u16) -> u8 {
        self.rom.chr_rom@[addr as int]
    }

    open spec fn irq_raised(&self) -> bool {
        false
    }

    /// The byte is stored at the address itself; nothing else changes.
    open spec fn wrote_chr_rom(&self, addr: u16, value: u8, after: &Self) -> bool {
        self.rom.chr_written(addr as int, value, &after.rom) && after.bank_select
            == self.bank_select
    }

    open spec fn loaded(&self, raw: Seq<u8>, after: &Self) -> bool {
        *after == *self
    }

    open spec fn took_rom(&self, rom: Rom, after: &Self) -> bool {
        after.rom == rom && after.bank_select == self.bank_select
    }

    open spec fn wrote_prg_ram(&self, addr: u16, data: u8, after: &Self) -> bool {
        *after == *self
    }

    open spec fn spec_write(&self, addr: u16, data: u8) -> Self {
        Mapper2 { bank_select: data, ..*self }
    }

    open spec fn spec_scanline(&self, scanline: usize, show_background: bool) -> Self {
        *self
    }

    open spec fn spec_answered(&self) -> Self {
        *self
    }

    fn is_chr_ram(&self) -> (chr_ram: bool) {
        self.rom.is_chr_ram
    }

    fn set_rom(&mut self, rom: Rom)
    {
        self.rom = rom;
    }

    fn write(&mut self, _addr: u16, data: u8)
    {
        self.bank_select = data;
    }

    fn mirroring(&self) -> (mirroring: Mirroring) {
        self.rom.screen_mirroring
    }

    fn can_access_prg_ram(&self, _addr: u16) -> (ok: bool) {
        true
    }

    fn write_prg_ram(&mut self, _addr: u16, _data: u8)
    {
    }

    fn read_prg_ram(&self, _addr: u16) -> (data: u8) {
        0
    }

    fn load_prg_ram(&mut self, _raw: &Vec<u8>)
    {
    }

    fn can_read_prg_rom(&self, addr: u16) -> (ok: bool) {
        if addr < PRG_ROM_BASE {
            return false;
        }
        self.prg_place(addr).is_some()
    }

    fn read_prg_rom(&self, addr: u16) -> (data: u8) {
        let place = self.prg_place(addr);
        self.rom.prg_rom[place.unwrap()]
    }

    fn can_access_chr_rom(&self, addr: u16) -> (ok: bool) {
        (addr as usize) < self.rom.chr_rom.len()
    }

    fn write_chr_rom(&mut self, addr: u16, value: u8)
    {
        self.rom.chr_rom[addr as usize] = value;
    }

    fn read_chr_rom(&self, addr: u16) -> (data: u8) {
        self.rom.chr_rom[addr as usize]
    }

    fn scanline(&mut self, _scanline: usize, _show_background: bool)
    {
    }

    fn is_irq(&mut self) -> (irq: bool)
    {
        false
    }
}

/// Mapper 3: a write selects the 8 KiB character bank; program ROM is not
/// banked.
pub struct Mapper3 {
    pub rom: Rom,
    pub bank_select: u8,
}

impl Mapper3 {
    /// A mapper at power-on, which holds a cartridge with nothing in it
    /// and has bank 0 selected.
    pub fn new() -> (mapper: Self)
        ensures
            mapper.rom.holds_nothing(),
            mapper.bank_select == 0,
            mapper.wf(),
    {
        Mapper3 { rom: Rom::empty(), bank_select: 0 }
    }

    /// The place in character ROM that an address reads.
    pub open spec fn chr_index(&self, addr: u16) -> int {
        banked(addr as int, 0x2000, (self.bank_select & 0x03) as int)
    }
}

impl Mapper for Mapper3 {
    open spec fn wf(&self) -> bool {
        true
    }

    open spec fn kind(&self) -> u8 {
        3
    }

    open spec fn cartridge(&self) -> Rom {
        self.rom
    }

    open spec fn spec_mirroring(&self) -> Mirroring {
        self.rom.screen_mirroring
    }

    open spec fn prg_ram_mapped(&self, addr: u16) -> bool {
        true
    }

    open spec fn spec_read_prg_ram(&self, addr: u16) -> u8 {
        0
    }

    open spec fn prg_rom_mapped(&self, addr: u16) -> bool {
        addr >= PRG_ROM_BASE && addr - PRG_ROM_BASE < self.rom.prg_rom@.len()
    }

    open spec fn spec_read_prg_rom(&self, addr: u16) -> u8 {
        self.rom.prg_rom@[addr - PRG_ROM_BASE]
    }

    /// Writes go to the address itself, reads through the selected bank:
    /// an address is mapped when both places lie in the memory.
    open spec fn chr_rom_mapped(&self, addr: u16) -> bool {
        addr < self.rom.chr_rom@.len() && self.chr_index(addr) < self.rom.chr_rom@.len()
    }

    open spec fn spec_read_chr_rom(&self, addr: u16) -> u8 {
        self.rom.chr_rom@[self.chr_index(addr)]
    }

    open spec fn irq_raised(&self) -> bool {
        false
    }

    /// The byte is stored at the address itself; nothing else changes.
    open spec fn wrote_chr_rom(&self, addr: u16, value: u8, after: &Self) -> bool {
        self.rom.chr_written(addr as int, value, &after.rom) && after.bank_select
            == self.bank_select
    }

    open spec fn loaded(&self, raw: Seq<u8>, after: &Self) -> bool {
        *after == *self
    }

    open spec fn took_rom(&self, rom: Rom, after: &Self) -> bool {
        after.rom == rom && after.bank_select == self.bank_select
    }

    open spec fn wrote_prg_ram(&self, addr: u16, data: u8, after: &Self) -> bool {
        *after == *self
    }

    open spec fn spec_write(&self, addr: u16, data: u8) -> Self {
        Mapper3 { bank_select: data, ..*self }
    }

    open spec fn spec_scanline(&self, scanline: usize, show_background: bool) -> Self {
        *self
    }

    open spec fn spec_answered(&self) -> Self {
        *self
    }

    fn is_chr_ram(&self) -> (chr_ram: bool) {
        self.rom.is_chr_ram
    }

    fn set_rom(&mut self, rom: Rom)
    {
        self.rom = rom;
    }

    fn write(&mut self, _addr: u16, data: u8)
    {
        self.bank_select = data;
    }

    fn mirroring(&self) -> (mirroring: Mirroring) {
        self.rom.screen_mirroring
    }

    fn can_access_prg_ram(&self, _addr: u16) -> (ok: bool) {
        true
    }

    fn write_prg_ram(&mut self, _addr: u16, _data: u8)
    {
    }

    fn read_prg_ram(&self, _addr: u16) -> (data: u8) {
        0
    }

    fn load_prg_ram(&mut self, _raw: &Vec<u8>)
    {
    }

    fn can_read_prg_rom(&self, addr: u16) -> (ok: bool) {
        addr >= PRG_ROM_BASE && ((addr - PRG_ROM_BASE) as usize) < self.rom.prg_rom.len()
    }

    fn read_prg_rom(&self, addr: u16) -> (data: u8) {
        self.rom.prg_rom[addr as usize - 0x8000]
    }

    fn can_access_chr_rom(&self, addr: u16) -> (ok: bool) {
        let len = self.rom.chr_rom.len();
        let bank = self.bank_select & 0x03;
        (addr as usize) < len && locate(len, addr as usize, 0x2000, bank as usize).is_some()
    }

    fn write_chr_rom(&mut self, addr: u16, value: u8)
    {
        self.rom.chr_rom[addr as usize] = value;
    }

    fn read_chr_rom(&self, addr: u16) -> (data: u8) {
        let bank = self.bank_select & 0x03;
        let place = locate(self.rom.chr_rom.len(), addr as usize, 0x2000, bank as usize);
        self.rom.chr_rom[place.unwrap()]
    }

    fn scanline(&mut self, _scanline: usize, _show_background: bool)
    {
    }

    fn is_irq(&mut self) -> (irq: bool)
    {
        false
    }
}

/// Mapper 4: eight bank registers select 8 KiB program banks and 1 KiB
/// character banks, and a scanline counter asks for interrupts. It has
/// 8 KiB of program RAM.
pub struct Mapper4 {
    pub rom: Rom,
    pub prg_ram: Vec<u8>,
    pub bank_select: u8,
    pub bank_data: [u8; 8],
    pub mirroring: u8,
    pub prg_ram_protect: u8,
    pub irq_latch: u8,
    pub irq_latch_counter: u8,
    pub irq_reload: bool,
    pub irq_enable: bool,
    pub is_irq: bool,
}

impl Mapper4 {
    /// True when another mapper has the same registers.
    pub open spec fn same_registers(&self, other: &Self) -> bool {
        &&& other.bank_select == self.bank_select
        &&& other.bank_data == self.bank_data
        &&& other.mirroring == self.mirroring
        &&& other.prg_ram_protect == self.prg_ram_protect
        &&& other.irq_latch == self.irq_latch
        &&& other.irq_latch_counter == self.irq_latch_counter
        &&& other.irq_reload == self.irq_reload
        &&& other.irq_enable == self.irq_enable
        &&& other.is_irq == self.is_irq
    }

    /// A mapper at power-on, which holds a cartridge with nothing in it.
    pub fn new() -> (mapper: Self)
        ensures
            mapper.wf(),
            mapper.rom.holds_nothing(),
            mapper.prg_ram@ == blank_prg_ram(),
            mapper.bank_select == 0,
            mapper.bank_data@ == Seq::new(8, |i: int| 0u8),
            mapper.mirroring == 0,
            mapper.prg_ram_protect == 0,
            mapper.irq_latch == 0,
            mapper.irq_latch_counter == 0,
            !mapper.irq_reload,
            !mapper.irq_enable,
            !mapper.is_irq,
    {
        let prg_ram: Vec<u8> = vec![0xFF; PRG_RAM_SIZE];
        assert(prg_ram@ =~= Seq::new(PRG_RAM_SIZE as nat, |i: int| 0xFFu8));
        let bank_data: [u8; 8] = [0; 8];
        assert(bank_data@ =~= Seq::new(8, |i: int| 0u8));
        Mapper4 {
            rom: Rom::empty(),
            prg_ram,
            bank_select: 0,
            bank_data,
            mirroring: 0,
            prg_ram_protect: 0,
            irq_latch: 0,
            irq_latch_counter: 0,
            irq_reload: false,
            irq_enable: false,
            is_irq: false,
        }
    }

    /// Which bank register serves a character address, by the 1 KiB slot
    /// that the address lies in. Bit 7 of the bank select register swaps
    /// the two halves of the address range.
    pub open spec fn chr_register(&self, addr: u16) -> int {
        if self.bank_select & 0x80 == 0 {
            if addr <= 0x07FF {
                0
            } else if addr <= 0x0FFF {
                1
            } else {
                2 + (addr - 0x1000) / 0x400
            }
        } else {
            if addr <= 0x0FFF {
                2 + addr as int / 0x400
            } else if addr <= 0x17FF {
                0
            } else {
                1
            }
        }
    }

    /// Where the window begins in which a character address lies: the
    /// registers 0 and 1 serve 2 KiB each, the others 1 KiB.
    pub open spec fn chr_window(&self, addr: u16) -> int {
        if self.chr_register(addr) <= 1 {
            (addr as int / 0x800) * 0x800
        } else {
            (addr as int / 0x400) * 0x400
        }
    }

    /// The place in character memory that an address reads and writes.
    pub open spec fn chr_index(&self, addr: u16) -> int {
        banked(
            addr - self.chr_window(addr),
            0x400,
            self.bank_data@[self.chr_register(addr)] as int,
        )
    }

    pub fn get_chr_rom_addr(&self, addr: u16) -> (place: usize)
        requires
            addr <= 0x1FFF,
        ensures
            place == self.chr_index(addr),
    {
        let bank_size: usize = 1024;
        let mode = self.bank_select & 0x80;
        let r0_bank = self.bank_data[0] as usize;
        let r1_bank = self.bank_data[1] as usize;
        let r2_bank = self.bank_data[2] as usize;
        let r3_bank = self.bank_data[3] as usize;
        let r4_bank = self.bank_data[4] as usize;
        let r5_bank = self.bank_data[5] as usize;
        match mode {
            0 => match addr {
                0x0000..=0x07FF => addr as usize + r0_bank * bank_size,
                0x0800..=0x0FFF => (addr as usize - 0x0800) + r1_bank * bank_size,
                0x1000..=0x13FF => (addr as usize - 0x1000) + r2_bank * bank_size,
                0x1400..=0x17FF => (addr as usize - 0x1400) + r3_bank * bank_size,
                0x1800..=0x1BFF => (addr as usize - 0x1800) + r4_bank * bank_size,
                _ => (addr as usize - 0x1C00) + r5_bank * bank_size,
            },
            _ => match addr {
                0x0000..=0x03FF => addr as usize + r2_bank * bank_size,
                0x0400..=0x07FF => (addr as usize - 0x0400) + r3_bank * bank_size,
                0x0800..=0x0BFF => (addr as usize - 0x0800) + r4_bank * bank_size,
                0x0C00..=0x0FFF => (addr as usize - 0x0C00) + r5_bank * bank_size,
                0x1000..=0x17FF => (addr as usize - 0x1000) + r0_bank * bank_size,
                _ => (addr as usize - 0x1800) + r1_bank * bank_size,
            },
        }
    }

    /// The number of whole 8 KiB banks of program ROM.
    pub open spec fn prg_bank_count(&self) -> int {
        self.rom.prg_rom@.len() as int / 0x2000
    }

    /// The program bank that serves an address, by the 8 KiB slot that the
    /// address lies in: registers 6 and 7 and the last two banks. Bit 6 of
    /// the bank select register swaps the first slot and the third.
    pub open spec fn prg_bank(&self, addr: u16) -> int {
        let swapped = self.bank_select & 0x40 != 0;
        if addr <= 0x9FFF {
            if swapped {
                self.prg_bank_count() - 2
            } else {
                self.bank_data@[6] as int
            }
        } else if addr <= 0xBFFF {
            self.bank_data@[7] as int
        } else if addr <= 0xDFFF {
            if swapped {
                self.bank_data@[6] as int
            } else {
                self.prg_bank_count() - 2
            }
        } else {
            self.prg_bank_count() - 1
        }
    }

    /// The place in program ROM that an address reads.
    pub open spec fn prg_index(&self, addr: u16) -> int {
        banked((addr - 0x8000) % 0x2000, 0x2000, self.prg_bank(addr))
    }

    /// The place in program ROM that an address reads, if there is one.
    fn prg_place(&self, addr: u16) -> (place: Option<usize>)
        requires
            addr >= PRG_ROM_BASE,
        ensures
            place is Some <==> self.prg_bank_count() >= 2 && self.prg_index(addr)
                < self.rom.prg_rom@.len(),
            place matches Some(p) ==> p == self.prg_index(addr),
    {
        let bank_size: usize = 0x2000;
        let len = self.rom.prg_rom.len();
        let bank_max: usize = len / bank_size;
        if bank_max < 2 {
            return None;
        }
        let mode = self.bank_select & 0x40;
        let last_bank = bank_max - 1;
        let last_bank2 = bank_max - 2;
        let r6_bank = self.bank_data[6] as usize;
        let r7_bank = self.bank_data[7] as usize;
        match mode {
            0 => match addr {
                0x8000..=0x9FFF => locate(len, (addr - 0x8000) as usize, bank_size, r6_bank),
                0xA000..=0xBFFF => locate(len, (addr - 0xA000) as usize, bank_size, r7_bank),
                0xC000..=0xDFFF => locate(len, (addr - 0xC000) as usize, bank_size, last_bank2),
                _ => locate(len, (addr - 0xE000) as usize, bank_size, last_bank),
            },
            _ => match addr {
                0x8000..=0x9FFF => locate(len, (addr - 0x8000) as usize, bank_size, last_bank2),
                0xA000..=0xBFFF => locate(len, (addr - 0xA000) as usize, bank_size, r7_bank),
                0xC000..=0xDFFF => locate(len, (addr - 0xC000) as usize, bank_size, r6_bank),
                _ => locate(len, (addr - 0xE000) as usize, bank_size, last_bank),
            },
        }
    }

    /// True when a scanline clocks the interrupt counter: it is visible and
    /// the picture unit renders.
    pub open spec fn counts(scanline: usize, show: bool) -> bool {
        scanline <= 240 && show
    }

    /// The interrupt counter after a scanline that clocks it: reloaded from
    /// the latch when it is 0 or a reload is due, else one less.
    pub open spec fn next_counter(&self) -> u8 {
        if self.irq_latch_counter == 0 || self.irq_reload {
            self.irq_latch
        } else {
            (self.irq_latch_counter - 1) as u8
        }
    }
}

impl Mapper for Mapper4 {
    open spec fn wf(&self) -> bool {
        true
    }

    open spec fn kind(&self) -> u8 {
        4
    }

    open spec fn cartridge(&self) -> Rom {
        self.rom
    }

    open spec fn spec_mirroring(&self) -> Mirroring {
        if self.mirroring & 0x01 == 0 {
            Mirroring::VERTICAL
        } else {
            Mirroring::HORIZONTAL
        }
    }

    open spec fn prg_ram_mapped(&self, addr: u16) -> bool {
        addr >= PRG_RAM_BASE && addr - PRG_RAM_BASE < self.prg_ram@.len()
    }

    open spec fn spec_read_prg_ram(&self, addr: u16) -> u8 {
        self.prg_ram@[addr - PRG_RAM_BASE]
    }

    open spec fn prg_rom_mapped(&self, addr: u16) -> bool {
        &&& addr >= PRG_ROM_BASE
        &&& self.prg_bank_count() >= 2
        &&& self.prg_index(addr) < self.rom.prg_rom@.len()
    }

    open spec fn spec_read_prg_rom(&self, addr: u16) -> u8 {
        self.rom.prg_rom@[self.prg_index(addr)]
    }

    open spec fn chr_rom_mapped(&self, addr: u16) -> bool {
        addr <= 0x1FFF && self.chr_index(addr) < self.rom.chr_rom@.len()
    }

    open spec fn spec_read_chr_rom(&self, addr: u16) -> u8 {
        self.rom.chr_rom@[self.chr_index(addr)]
    }

    open spec fn irq_raised(&self) -> bool {
        self.is_irq
    }

    /// The byte is stored at the place that the banks select; nothing
    /// else changes.
    open spec fn wrote_chr_rom(&self, addr: u16, value: u8, after: &Self) -> bool {
        &&& self.rom.chr_written(self.chr_index(addr), value, &after.rom)
        &&& after.prg_ram == self.prg_ram
        &&& self.same_registers(after)
    }

    /// The program RAM is the saved contents, unless these are empty;
    /// nothing else changes.
    open spec fn loaded(&self, raw: Seq<u8>, after: &Self) -> bool {
        &&& after.prg_ram@ == if raw.len() == 0 {
            self.prg_ram@
        } else {
            raw
        }
        &&& after.rom == self.rom
        &&& self.same_registers(after)
    }

    /// The mapper holds the cartridge and has taken its saved contents.
    open spec fn took_rom(&self, rom: Rom, after: &Self) -> bool {
        &&& after.prg_ram@ == if rom.save_data@.len() == 0 {
            self.prg_ram@
        } else {
            rom.save_data@
        }
        &&& after.rom == rom
        &&& self.same_registers(after)
    }

    /// The byte is stored; nothing else changes.
    open spec fn wrote_prg_ram(&self, addr: u16, data: u8, after: &Self) -> bool {
        &&& after.prg_ram@ == self.prg_ram@.update(addr - PRG_RAM_BASE, data)
        &&& after.rom == self.rom
        &&& after.bank_select == self.bank_select
        &&& after.bank_data == self.bank_data
        &&& after.mirroring == self.mirroring
        &&& after.prg_ram_protect == self.prg_ram_protect
        &&& after.irq_latch == self.irq_latch
        &&& after.irq_latch_counter == self.irq_latch_counter
        &&& after.irq_reload == self.irq_reload
        &&& after.irq_enable == self.irq_enable
        &&& after.is_irq == self.is_irq
    }

    /// The mapper after a write to one of its eight registers: the address
    /// picks a pair by its range and one of the pair by its lowest bit.
    open spec fn spec_write(&self, addr: u16, data: u8) -> Self {
        let even = addr & 0x0001 == 0;
        if addr <= 0x9FFF {
            if even {
                Mapper4 { bank_select: data, ..*self }
            } else {
                Mapper4 {
                    bank_data: vstd::array::spec_array_update(
                        self.bank_data,
                        (self.bank_select & 0x07) as int,
                        data,
                    ),
                    ..*self
                }
            }
        } else if addr <= 0xBFFF {
            if even {
                Mapper4 { mirroring: data, ..*self }
            } else {
                Mapper4 { prg_ram_protect: data, ..*self }
            }
        } else if addr <= 0xDFFF {
            if even {
                Mapper4 { irq_latch: data, ..*self }
            } else {
                Mapper4 { irq_reload: true, irq_latch_counter: 0, ..*self }
            }
        } else {
            if even {
                Mapper4 { irq_enable: false, is_irq: false, ..*self }
            } else {
                Mapper4 { irq_enable: true, ..*self }
            }
        }
    }

    /// The mapper after a scanline: a visible scanline while the picture
    /// unit renders clocks the interrupt counter, and the interrupt is
    /// raised when the counter reaches 0 with interrupts enabled.
    open spec fn spec_scanline(&self, scanline: usize, show_background: bool) -> Self {
        if Self::counts(scanline, show_background) {
            Mapper4 {
                irq_latch_counter: self.next_counter(),
                irq_reload: false,
                is_irq: self.is_irq || (self.next_counter() == 0 && self.irq_enable),
                ..*self
            }
        } else {
            *self
        }
    }

    open spec fn spec_answered(&self) -> Self {
        Mapper4 { is_irq: false, ..*self }
    }

    fn is_chr_ram(&self) -> (chr_ram: bool) {
        self.rom.is_chr_ram
    }

    fn set_rom(&mut self, rom: Rom)
    {
        self.load_prg_ram(&rom.save_data);
        self.rom = rom;
    }

    /// A write to one of the eight registers: the address picks a pair by
    /// its range and one of the pair by its lowest bit.
    fn write(&mut self, addr: u16, data: u8)
    {
        match addr {
            0x8000..=0x9FFF => {
                if addr & 0x0001 == 0 {
                    self.bank_select = data;
                } else {
                    proof {
                        lemma_register_fields(self.bank_select);
                    }
                    self.bank_data[(self.bank_select & 0x07) as usize] = data;
                }
            },
            0xA000..=0xBFFF => {
                if addr & 0x0001 == 0 {
                    self.mirroring = data;
                } else {
                    self.prg_ram_protect = data;
                }
            },
            0xC000..=0xDFFF => {
                if addr & 0x0001 == 0 {
                    self.irq_latch = data;
                } else {
                    self.irq_reload = true;
                    self.irq_latch_counter = 0;
                }
            },
            _ => {
                if addr & 0x0001 == 0 {
                    self.irq_enable = false;
                    self.is_irq = false;
                } else {
                    self.irq_enable = true;
                }
            },
        }
    }

    fn mirroring(&self) -> (mirroring: Mirroring) {
        if self.mirroring & 0x01 == 0 {
            Mirroring::VERTICAL
        } else {
            Mirroring::HORIZONTAL
        }
    }

    fn can_access_prg_ram(&self, addr: u16) -> (ok: bool) {
        addr >= PRG_RAM_BASE && ((addr - PRG_RAM_BASE) as usize) < self.prg_ram.len()
    }

    /// Stores a byte in program RAM. Keeping the RAM on disk is left to the
    /// caller, who finds it in `prg_ram`.
    fn write_prg_ram(&mut self, addr: u16, data: u8)
    {
        self.prg_ram[addr as usize - 0x6000] = data;
    }

    fn read_prg_ram(&self, addr: u16) -> (data: u8) {
        self.prg_ram[addr as usize - 0x6000]
    }

    /// Replaces the program RAM by saved contents, unless these are empty.
    fn load_prg_ram(&mut self, raw: &Vec<u8>)
    {
        if raw.is_empty() {
            return ;
        }
        self.prg_ram = raw.clone();
        assert(self.prg_ram@ =~= raw@);
    }

    fn can_read_prg_rom(&self, addr: u16) -> (ok: bool) {
        if addr < PRG_ROM_BASE {
            return false;
        }
        self.prg_place(addr).is_some()
    }

    fn read_prg_rom(&self, addr: u16) -> (data: u8) {
        let place = self.prg_place(addr);
        self.rom.prg_rom[place.unwrap()]
    }

    fn can_access_chr_rom(&self, addr: u16) -> (ok: bool) {
        addr <= 0x1FFF && self.get_chr_rom_addr(addr) < self.rom.chr_rom.len()
    }

    fn write_chr_rom(&mut self, addr: u16, value: u8)
    {
        let mirror_addr = self.get_chr_rom_addr(addr);
        self.rom.chr_rom[mirror_addr] = value;
    }

    fn read_chr_rom(&self, addr: u16) -> (data: u8) {
        self.rom.chr_rom[self.get_chr_rom_addr(addr)]
    }

    /// Clocks the interrupt counter on a visible scanline while the
    /// picture unit renders, and raises the interrupt when the counter
    /// reaches 0 with interrupts enabled.
    fn scanline(&mut self, scanline: usize, show_bkgd_or_sprt: bool)
    {
        if scanline <= 240 && show_bkgd_or_sprt {
            if self.irq_latch_counter == 0 || self.irq_reload {
                self.irq_latch_counter = self.irq_latch;
                self.irq_reload = false;
            } else {
                self.irq_latch_counter -= 1;
            }
            if self.irq_latch_counter == 0 && self.irq_enable {
                self.is_irq = true;
            }
        }
    }

    fn is_irq(&mut self) -> (irq: bool)
    {
        let res = self.is_irq;
        self.is_irq = false;
        res
    }
}

/// A mapper of any of the kinds that the emulator knows.
pub enum AnyMapper {
    M0(Mapper0),
    M1(Mapper1),
    M2(Mapper2),
    M3(Mapper3),
    M4(Mapper4),
}

impl Mapper for AnyMapper {
    open spec fn wf(&self) -> bool {
        match self {
            AnyMapper::M0(m) => m.wf(),
            AnyMapper::M1(m) => m.wf(),
            AnyMapper::M2(m) => m.wf(),
            AnyMapper::M3(m) => m.wf(),
            AnyMapper::M4(m) => m.wf(),
        }
    }

    open spec fn kind(&self) -> u8 {
        match self {
            AnyMapper::M0(m) => m.kind(),
            AnyMapper::M1(m) => m.kind(),
            AnyMapper::M2(m) => m.kind(),
            AnyMapper::M3(m) => m.kind(),
            AnyMapper::M4(m) => m.kind(),
        }
    }

    open spec fn cartridge(&self) -> Rom {
        match self {
            AnyMapper::M0(m) => m.cartridge(),
            AnyMapper::M1(m) => m.cartridge(),
            AnyMapper::M2(m) => m.cartridge(),
            AnyMapper::M3(m) => m.cartridge(),
            AnyMapper::M4(m) => m.cartridge(),
        }
    }

    open spec fn spec_mirroring(&self) -> Mirroring {
        match self {
            AnyMapper::M0(m) => m.spec_mirroring(),
            AnyMapper::M1(m) => m.spec_mirroring(),
            AnyMapper::M2(m) => m.spec_mirroring(),
            AnyMapper::M3(m) => m.spec_mirroring(),
            AnyMapper::M4(m) => m.spec_mirroring(),
        }
    }

    open spec fn prg_ram_mapped(&self, addr: u16) -> bool {
        match self {
            AnyMapper::M0(m) => m.prg_ram_mapped(addr),
            AnyMapper::M1(m) => m.prg_ram_mapped(addr),
            AnyMapper::M2(m) => m.prg_ram_mapped(addr),
            AnyMapper::M3(m) => m.prg_ram_mapped(addr),
            AnyMapper::M4(m) => m.prg_ram_mapped(addr),
        }
    }

    open spec fn spec_read_prg_ram(&self, addr: u16) -> u8 {
        match self {
            AnyMapper::M0(m) => m.spec_read_prg_ram(addr),
            AnyMapper::M1(m) => m.spec_read_prg_ram(addr),
            AnyMapper::M2(m) => m.spec_read_prg_ram(addr),
            AnyMapper::M3(m) => m.spec_read_prg_ram(addr),
            AnyMapper::M4(m) => m.spec_read_prg_ram(addr),
        }
    }

    open spec fn prg_rom_mapped(&self, addr: u16) -> bool {
        match self {
            AnyMapper::M0(m) => m.prg_rom_mapped(addr),
            AnyMapper::M1(m) => m.prg_rom_mapped(addr),
            AnyMapper::M2(m) => m.prg_rom_mapped(addr),
            AnyMapper::M3(m) => m.prg_rom_mapped(addr),
            AnyMapper::M4(m) => m.prg_rom_mapped(addr),
        }
    }

    open spec fn spec_read_prg_rom(&self, addr: u16) -> u8 {
        match self {
            AnyMapper::M0(m) => m.spec_read_prg_rom(addr),
            AnyMapper::M1(m) => m.spec_read_prg_rom(addr),
            AnyMapper::M2(m) => m.spec_read_prg_rom(addr),
            AnyMapper::M3(m) => m.spec_read_prg_rom(addr),
            AnyMapper::M4(m) => m.spec_read_prg_rom(addr),
        }
    }

    open spec fn chr_rom_mapped(&self, addr: u16) -> bool {
        match self {
            AnyMapper::M0(m) => m.chr_rom_mapped(addr),
            AnyMapper::M1(m) => m.chr_rom_mapped(addr),
            AnyMapper::M2(m) => m.chr_rom_mapped(addr),
            AnyMapper::M3(m) => m.chr_rom_mapped(addr),
            AnyMapper::M4(m) => m.chr_rom_mapped(addr),
        }
    }

    open spec fn spec_read_chr_rom(&self, addr: u16) -> u8 {
        match self {
            AnyMapper::M0(m) => m.spec_read_chr_rom(addr),
            AnyMapper::M1(m) => m.spec_read_chr_rom(addr),
            AnyMapper::M2(m) => m.spec_read_chr_rom(addr),
            AnyMapper::M3(m) => m.spec_read_chr_rom(addr),
            AnyMapper::M4(m) => m.spec_read_chr_rom(addr),
        }
    }

    open spec fn irq_raised(&self) -> bool {
        match self {
            AnyMapper::M0(m) => m.irq_raised(),
            AnyMapper::M1(m) => m.irq_raised(),
            AnyMapper::M2(m) => m.irq_raised(),
            AnyMapper::M3(m) => m.irq_raised(),
            AnyMapper::M4(m) => m.irq_raised(),
        }
    }

    open spec fn wrote_chr_rom(&self, addr: u16, value: u8, after: &Self) -> bool {
        match (self, after) {
            (AnyMapper::M0(m), AnyMapper::M0(n)) => m.wrote_chr_rom(addr, value, n),
            (AnyMapper::M1(m), AnyMapper::M1(n)) => m.wrote_chr_rom(addr, value, n),
            (AnyMapper::M2(m), AnyMapper::M2(n)) => m.wrote_chr_rom(addr, value, n),
            (AnyMapper::M3(m), AnyMapper::M3(n)) => m.wrote_chr_rom(addr, value, n),
            (AnyMapper::M4(m), AnyMapper::M4(n)) => m.wrote_chr_rom(addr, value, n),
            _ => false,
        }
    }

    open spec fn loaded(&self, raw: Seq<u8>, after: &Self) -> bool {
        match (self, after) {
            (AnyMapper::M0(m), AnyMapper::M0(n)) => m.loaded(raw, n),
            (AnyMapper::M1(m), AnyMapper::M1(n)) => m.loaded(raw, n),
            (AnyMapper::M2(m), AnyMapper::M2(n)) => m.loaded(raw, n),
            (AnyMapper::M3(m), AnyMapper::M3(n)) => m.loaded(raw, n),
            (AnyMapper::M4(m), AnyMapper::M4(n)) => m.loaded(raw, n),
            _ => false,
        }
    }

    open spec fn took_rom(&self, rom: Rom, after: &Self) -> bool {
        match (self, after) {
            (AnyMapper::M0(m), AnyMapper::M0(n)) => m.took_rom(rom, n),
            (AnyMapper::M1(m), AnyMapper::M1(n)) => m.took_rom(rom, n),
            (AnyMapper::M2(m), AnyMapper::M2(n)) => m.took_rom(rom, n),
            (AnyMapper::M3(m), AnyMapper::M3(n)) => m.took_rom(rom, n),
            (AnyMapper::M4(m), AnyMapper::M4(n)) => m.took_rom(rom, n),
            _ => false,
        }
    }

    open spec fn wrote_prg_ram(&self, addr: u16, data: u8, after: &Self) -> bool {
        match (self, after) {
            (AnyMapper::M0(m), AnyMapper::M0(n)) => m.wrote_prg_ram(addr, data, n),
            (AnyMapper::M1(m), AnyMapper::M1(n)) => m.wrote_prg_ram(addr, data, n),
            (AnyMapper::M2(m), AnyMapper::M2(n)) => m.wrote_prg_ram(addr, data, n),
            (AnyMapper::M3(m), AnyMapper::M3(n)) => m.wrote_prg_ram(addr, data, n),
            (AnyMapper::M4(m), AnyMapper::M4(n)) => m.wrote_prg_ram(addr, data, n),
            _ => false,
        }
    }

    open spec fn spec_write(&self, addr: u16, data: u8) -> Self {
        match self {
            AnyMapper::M0(m) => AnyMapper::M0(m.spec_write(addr, data)),
            AnyMapper::M1(m) => AnyMapper::M1(m.spec_write(addr, data)),
            AnyMapper::M2(m) => AnyMapper::M2(m.spec_write(addr, data)),
            AnyMapper::M3(m) => AnyMapper::M3(m.spec_write(addr, data)),
            AnyMapper::M4(m) => AnyMapper::M4(m.spec_write(addr, data)),
        }
    }

    open spec fn spec_scanline(&self, scanline: usize, show_background: bool) -> Self {
        match self {
            AnyMapper::M0(m) => AnyMapper::M0(m.spec_scanline(scanline, show_background)),
            AnyMapper::M1(m) => AnyMapper::M1(m.spec_scanline(scanline, show_background)),
            AnyMapper::M2(m) => AnyMapper::M2(m.spec_scanline(scanline, show_background)),
            AnyMapper::M3(m) => AnyMapper::M3(m.spec_scanline(scanline, show_background)),
            AnyMapper::M4(m) => AnyMapper::M4(m.spec_scanline(scanline, show_background)),
        }
    }

    open spec fn spec_answered(&self) -> Self {
        match self {
            AnyMapper::M0(m) => AnyMapper::M0(m.spec_answered()),
            AnyMapper::M1(m) => AnyMapper::M1(m.spec_answered()),
            AnyMapper::M2(m) => AnyMapper::M2(m.spec_answered()),
            AnyMapper::M3(m) => AnyMapper::M3(m.spec_answered()),
            AnyMapper::M4(m) => AnyMapper::M4(m.spec_answered()),
        }
    }

    fn set_rom(&mut self, rom: Rom) {
        match self {
            AnyMapper::M0(m) => m.set_rom(rom),
            AnyMapper::M1(m) => m.set_rom(rom),
            AnyMapper::M2(m) => m.set_rom(rom),
            AnyMapper::M3(m) => m.set_rom(rom),
            AnyMapper::M4(m) => m.set_rom(rom),
        }
    }

    fn is_chr_ram(&self) -> (chr_ram: bool) {
        match self {
            AnyMapper::M0(m) => m.is_chr_ram(),
            AnyMapper::M1(m) => m.is_chr_ram(),
            AnyMapper::M2(m) => m.is_chr_ram(),
            AnyMapper::M3(m) => m.is_chr_ram(),
            AnyMapper::M4(m) => m.is_chr_ram(),
        }
    }

    fn write(&mut self, addr: u16, data: u8) {
        match self {
            AnyMapper::M0(m) => m.write(addr, data),
            AnyMapper::M1(m) => m.write(addr, data),
            AnyMapper::M2(m) => m.write(addr, data),
            AnyMapper::M3(m) => m.write(addr, data),
            AnyMapper::M4(m) => m.write(addr, data),
        }
    }

    fn mirroring(&self) -> (mirroring: Mirroring) {
        match self {
            AnyMapper::M0(m) => m.mirroring(),
            AnyMapper::M1(m) => m.mirroring(),
            AnyMapper::M2(m) => m.mirroring(),
            AnyMapper::M3(m) => m.mirroring(),
            AnyMapper::M4(m) => m.mirroring(),
        }
    }

    fn can_access_prg_ram(&self, addr: u16) -> (ok: bool) {
        match self {
            AnyMapper::M0(m) => m.can_access_prg_ram(addr),
            AnyMapper::M1(m) => m.can_access_prg_ram(addr),
            AnyMapper::M2(m) => m.can_access_prg_ram(addr),
            AnyMapper::M3(m) => m.can_access_prg_ram(addr),
            AnyMapper::M4(m) => m.can_access_prg_ram(addr),
        }
    }

    fn write_prg_ram(&mut self, addr: u16, data: u8) {
        match self {
            AnyMapper::M0(m) => m.write_prg_ram(addr, data),
            AnyMapper::M1(m) => m.write_prg_ram(addr, data),
            AnyMapper::M2(m) => m.write_prg_ram(addr, data),
            AnyMapper::M3(m) => m.write_prg_ram(addr, data),
            AnyMapper::M4(m) => m.write_prg_ram(addr, data),
        }
    }

    fn read_prg_ram(&self, addr: u16) -> (data: u8) {
        match self {
            AnyMapper::M0(m) => m.read_prg_ram(addr),
            AnyMapper::M1(m) => m.read_prg_ram(addr),
            AnyMapper::M2(m) => m.read_prg_ram(addr),
            AnyMapper::M3(m) => m.read_prg_ram(addr),
            AnyMapper::M4(m) => m.read_prg_ram(addr),
        }
    }

    fn load_prg_ram(&mut self, raw: &Vec<u8>) {
        match self {
            AnyMapper::M0(m) => m.load_prg_ram(raw),
            AnyMapper::M1(m) => m.load_prg_ram(raw),
            AnyMapper::M2(m) => m.load_prg_ram(raw),
            AnyMapper::M3(m) => m.load_prg_ram(raw),
            AnyMapper::M4(m) => m.load_prg_ram(raw),
        }
    }

    fn can_read_prg_rom(&self, addr: u16) -> (ok: bool) {
        match self {
            AnyMapper::M0(m) => m.can_read_prg_rom(addr),
            AnyMapper::M1(m) => m.can_read_prg_rom(addr),
            AnyMapper::M2(m) => m.can_read_prg_rom(addr),
            AnyMapper::M3(m) => m.can_read_prg_rom(addr),
            AnyMapper::M4(m) => m.can_read_prg_rom(addr),
        }
    }

    fn read_prg_rom(&self, addr: u16) -> (data: u8) {
        match self {
            AnyMapper::M0(m) => m.read_prg_rom(addr),
            AnyMapper::M1(m) => m.read_prg_rom(addr),
            AnyMapper::M2(m) => m.read_prg_rom(addr),
            AnyMapper::M3(m) => m.read_prg_rom(addr),
            AnyMapper::M4(m) => m.read_prg_rom(addr),
        }
    }

    fn can_access_chr_rom(&self, addr: u16) -> (ok: bool) {
        match self {
            AnyMapper::M0(m) => m.can_access_chr_rom(addr),
            AnyMapper::M1(m) => m.can_access_chr_rom(addr),
            AnyMapper::M2(m) => m.can_access_chr_rom(addr),
            AnyMapper::M3(m) => m.can_access_chr_rom(addr),
            AnyMapper::M4(m) => m.can_access_chr_rom(addr),
        }
    }

    fn write_chr_rom(&mut self, addr: u16, value: u8) {
        match self {
            AnyMapper::M0(m) => m.write_chr_rom(addr, value),
            AnyMapper::M1(m) => m.write_chr_rom(addr, value),
            AnyMapper::M2(m) => m.write_chr_rom(addr, value),
            AnyMapper::M3(m) => m.write_chr_rom(addr, value),
            AnyMapper::M4(m) => m.write_chr_rom(addr, value),
        }
    }

    fn read_chr_rom(&self, addr: u16) -> (data: u8) {
        match self {
            AnyMapper::M0(m) => m.read_chr_rom(addr),
            AnyMapper::M1(m) => m.read_chr_rom(addr),
            AnyMapper::M2(m) => m.read_chr_rom(addr),
            AnyMapper::M3(m) => m.read_chr_rom(addr),
            AnyMapper::M4(m) => m.read_chr_rom(addr),
        }
    }

    fn scanline(&mut self, scanline: usize, show_background: bool) {
        match self {
            AnyMapper::M0(m) => m.scanline(scanline, show_background),
            AnyMapper::M1(m) => m.scanline(scanline, show_background),
            AnyMapper::M2(m) => m.scanline(scanline, show_background),
            AnyMapper::M3(m) => m.scanline(scanline, show_background),
            AnyMapper::M4(m) => m.scanline(scanline, show_background),
        }
    }

    fn is_irq(&mut self) -> (irq: bool) {
        match self {
            AnyMapper::M0(m) => m.is_irq(),
            AnyMapper::M1(m) => m.is_irq(),
            AnyMapper::M2(m) => m.is_irq(),
            AnyMapper::M3(m) => m.is_irq(),
            AnyMapper::M4(m) => m.is_irq(),
        }
    }
}

/// The program RAM of a mapper at power-on: 8 KiB of $FF.
pub open spec fn blank_prg_ram() -> Seq<u8> {
    Seq::new(PRG_RAM_SIZE as nat, |i: int| 0xFFu8)
}

/// The program RAM of a mapper that has taken a cartridge's saved
/// contents: the saved contents, unless these are empty.
pub open spec fn loaded_prg_ram(save_data: Seq<u8>) -> Seq<u8> {
    if save_data.len() == 0 {
        blank_prg_ram()
    } else {
        save_data
    }
}

/// The mapper for a cartridge, chosen by the cartridge's mapper number: a
/// mapper of that kind at power-on which holds the cartridge.
pub fn create_mapper(rom: Rom) -> (mapper: AnyMapper)
    requires
        rom.mapper <= 4,
    ensures
        mapper.wf(),
        mapper.kind() == rom.mapper,
        mapper.cartridge() == rom,
        rom.mapper == 0 ==> (mapper matches AnyMapper::M0(m) && m.rom == rom),
        rom.mapper == 1 ==> (mapper matches AnyMapper::M1(m) && {
            &&& m.rom == rom
            &&& m.prg_ram@ == loaded_prg_ram(rom.save_data@)
            &&& m.shift_register == 0x10
            &&& m.shift_count == 0
            &&& m.control == 0x0C
            &&& m.chr_bank0 == 0
            &&& m.chr_bank1 == 0
            &&& m.prg_bank == 0
        }),
        rom.mapper == 2 ==> (mapper matches AnyMapper::M2(m) && m.rom == rom && m.bank_select == 0),
        rom.mapper == 3 ==> (mapper matches AnyMapper::M3(m) && m.rom == rom && m.bank_select == 0),
        rom.mapper == 4 ==> (mapper matches AnyMapper::M4(m) && {
            &&& m.rom == rom
            &&& m.prg_ram@ == loaded_prg_ram(rom.save_data@)
            &&& m.bank_select == 0
            &&& m.bank_data@ == Seq::new(8, |i: int| 0u8)
            &&& m.mirroring == 0
            &&& m.prg_ram_protect == 0
            &&& m.irq_latch == 0
            &&& m.irq_latch_counter == 0
            &&& !m.irq_reload
            &&& !m.irq_enable
            &&& !m.is_irq
        }),
{
    match rom.mapper {
        0 => {
            let mut mapper = Mapper0::new();
            mapper.set_rom(rom);
            AnyMapper::M0(mapper)
        },
        1 => {
            let mut mapper = Mapper1::new();
            mapper.set_rom(rom);
            AnyMapper::M1(mapper)
        },
        2 => {
            let mut mapper = Mapper2::new();
            mapper.set_rom(rom);
            AnyMapper::M2(mapper)
        },
        3 => {
            let mut mapper = Mapper3::new();
            mapper.set_rom(rom);
            AnyMapper::M3(mapper)
        },
        _ => {
            let mut mapper = Mapper4::new();
            mapper.set_rom(rom);
            AnyMapper::M4(mapper)
        },
    }
}

} // verus!
