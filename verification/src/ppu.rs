//! The picture processing unit's registers and memory, as the processor
//! sees them at $2000 to $2007, and its scanline timing.
use vstd::prelude::*;
use crate::rom::Mirroring;

verus! {

/// What joining and splitting the two bytes of an address amounts to.
pub proof fn lemma_address_bytes(hi: u8, lo: u8)
    by (bit_vector)
    ensures
        ((hi as u16) << 8) | (lo as u16) == hi as u16 * 256 + lo as u16,
        (((hi as u16) << 8) | (lo as u16)) > 0x3FFF <==> hi > 0x3F,
        ((((hi as u16) << 8) | (lo as u16)) & 0x3FFF) >> 8 == (hi & 0x3F) as u16,
        (((hi as u16) << 8) | (lo as u16)) & 0x3FFF & 0xFF == lo as u16,
        hi & 0x3F <= 0x3F,
        hi <= 0x3F ==> hi & 0x3F == hi,
        hi > 0x3F ==> hi & 0x3F == hi % 0x40,
{
}

/// The address register behind $2006 and $2007: two writes fill
/// its high and its low byte, and it stays within 14 bits.
#[derive(Debug, Clone, Copy)]
pub struct AddrRegister {
    /// The high and the low byte.
    pub value: (u8, u8),
    /// True when the next write goes to the high byte.
    pub hi_ptr: bool,
}

impl AddrRegister {
    pub open spec fn wf(&self) -> bool {
        self.value.0 <= 0x3F
    }

    pub fn new() -> (register: Self)
        ensures
            register == (AddrRegister { value: (0, 0), hi_ptr: true }),
            register.wf(),
            register.spec_get() == 0,
    {
        AddrRegister { value: (0, 0), hi_ptr: true }
    }

    /// The register with the high byte cut down to 6 bits.
    pub open spec fn mirrored(self) -> Self {
        AddrRegister { value: (self.value.0 & 0x3F, self.value.1), ..self }
    }

    pub fn set(&mut self, data: u16)
        ensures
            final(self).value == ((data >> 8) as u8, (data & 0xFF) as u8),
            final(self).hi_ptr == old(self).hi_ptr,
    {
        self.value.0 = (data >> 8) as u8;
        self.value.1 = (data & 0xFF) as u8;
    }

    /// Brings an address above $3FFF back into the 14 bits.
    fn mirror_down(&mut self)
        ensures
            *final(self) == old(self).mirrored(),
            final(self).wf(),
    {
        proof {
            lemma_address_bytes(self.value.0, self.value.1);
        }
        if self.get() > 0x3FFF {
            let mirrored: u16 = self.get() & 0b11_1111_1111_1111;
            self.set(mirrored);
        }
    }

    /// The register after a write to $2006: the byte goes to the half that
    /// is due, and the next write goes to the other half.
    pub open spec fn spec_update(self, data: u8) -> Self {
        (AddrRegister {
            value: if self.hi_ptr {
                (data, self.value.1)
            } else {
                (self.value.0, data)
            },
            hi_ptr: !self.hi_ptr,
        }).mirrored()
    }

    pub fn update(&mut self, data: u8)
        ensures
            *final(self) == old(self).spec_update(data),
            final(self).wf(),
    {
        if self.hi_ptr {
            self.value.0 = data;
        } else {
            self.value.1 = data;
        }
        self.mirror_down();
        self.hi_ptr = !self.hi_ptr;
    }

    /// The low byte after `inc` has been added to it.
    pub open spec fn low_after(self, inc: u8) -> u8 {
        ((self.value.1 + inc) % 256) as u8
    }

    /// The register after `inc` has been added to the address: the low
    /// byte wraps, and its carry goes into the high byte.
    pub open spec fn spec_increment(self, inc: u8) -> Self {
        (AddrRegister {
            value: (
                if self.value.1 + inc > 255 {
                    ((self.value.0 + 1) % 256) as u8
                } else {
                    self.value.0
                },
                self.low_after(inc),
            ),
            ..self
        }).mirrored()
    }

    pub fn increment(&mut self, inc: u8)
        ensures
            *final(self) == old(self).spec_increment(inc),
            final(self).wf(),
            old(self).wf() ==> final(self).spec_get() == (old(self).spec_get() + inc) % 0x4000,
    {
        let lo = self.value.1;
        self.value.1 = self.value.1.wrapping_add(inc);
        if lo > self.value.1 {
            self.value.0 = self.value.0.wrapping_add(1);
        }
        proof {
            lemma_address_bytes(self.value.0, self.value.1);
        }
        self.mirror_down();
    }

    pub fn reset_latch(&mut self)
        ensures
            final(self).hi_ptr,
            final(self).value == old(self).value,
    {
        self.hi_ptr = true;
    }

    /// The address that the two bytes stand for.
    pub open spec fn spec_get(self) -> u16 {
        (self.value.0 * 256 + self.value.1) as u16
    }

    pub fn get(&self) -> (addr: u16)
        ensures
            addr == self.spec_get(),
            self.wf() ==> addr <= 0x3FFF,
    {
        proof {
            lemma_address_bytes(self.value.0, self.value.1);
        }
        ((self.value.0 as u16) << 8) | (self.value.1 as u16)
    }
}

/// The control register, $2000.
#[derive(Debug, Clone, Copy, PartialEq, Eq, Structural)]
pub struct ControlRegister {
    pub bits: u8,
}

impl ControlRegister {
    pub const NAMETABLE1: u8 = 0b0000_0001;

    pub const NAMETABLE2: u8 = 0b0000_0010;

    pub const VRAM_ADD_INCREMENT: u8 = 0b0000_0100;

    pub const SPRITE_PATTERN_ADDR: u8 = 0b0000_1000;

    pub const BACKGROUND_PATTERN_ADDR: u8 = 0b0001_0000;

    pub const SPRITE_SIZE: u8 = 0b0010_0000;

    pub const MASTER_SLAVE_SELECT: u8 = 0b0100_0000;

    pub const GENERATE_NMI: u8 = 0b1000_0000;

    pub fn new() -> (register: Self)
        ensures
            register.bits == 0,
    {
        ControlRegister { bits: 0 }
    }

    /// True when all bits of `flag` are set.
    pub open spec fn spec_contains(self, flag: u8) -> bool {
        self.bits & flag == flag
    }

    pub fn contains(&self, flag: u8) -> (set: bool)
        ensures
            set == self.spec_contains(flag),
    {
        self.bits & flag == flag
    }

    /// By how much an access through $2007 moves the address: 32 with bit
    /// 2 set, else 1.
    pub open spec fn spec_vram_addr_increment(self) -> u8 {
        if !self.spec_contains(Self::VRAM_ADD_INCREMENT) {
            1
        } else {
            32
        }
    }

    pub fn vram_addr_increment(&self) -> (inc: u8)
        ensures
            inc == self.spec_vram_addr_increment(),
    {
        if !self.contains(Self::VRAM_ADD_INCREMENT) {
            1
        } else {
            32
        }
    }

    pub fn update(&mut self, data: u8)
        ensures
            final(self).bits == data,
    {
        self.bits = data;
    }

    /// The register after `generate_vblank_nmi`, which sets bit 7.
    pub open spec fn spec_after_nmi_query(self) -> Self {
        ControlRegister { bits: self.bits | Self::GENERATE_NMI }
    }

    /// Returns whether bit 7 is set, and sets it.
    pub fn generate_vblank_nmi(&mut self) -> (last_status: bool)
        ensures
            last_status == old(self).spec_contains(Self::GENERATE_NMI),
            *final(self) == old(self).spec_after_nmi_query(),
    {
        let last_status = self.contains(Self::GENERATE_NMI);
        self.bits = self.bits | Self::GENERATE_NMI;
        return last_status;
    }

    pub fn background_pattern_addr(&self) -> (addr: u16)
        ensures
            addr == if self.spec_contains(Self::BACKGROUND_PATTERN_ADDR) {
                0x1000u16
            } else {
                0u16
            },
    {
        if !self.contains(Self::BACKGROUND_PATTERN_ADDR) {
            0x0000
        } else {
            0x1000
        }
    }

    pub fn sprite_pattern_addr(&self) -> (addr: u16)
        ensures
            addr == if self.spec_contains(Self::SPRITE_PATTERN_ADDR) {
                0x1000u16
            } else {
                0u16
            },
    {
        if !self.contains(Self::SPRITE_PATTERN_ADDR) {
            0x0000
        } else {
            0x1000
        }
    }

    /// The name table that bit 0 and 1 select.
    pub open spec fn spec_name_table(self) -> int {
        (if self.spec_contains(Self::NAMETABLE2) {
            2int
        } else {
            0int
        }) + (if self.spec_contains(Self::NAMETABLE1) {
            1int
        } else {
            0int
        })
    }

    /// The address of the selected name table: they lie $400 apart from
    /// $2000 on.
    pub fn name_table_addr(&self) -> (addr: u16)
        ensures
            addr == 0x2000 + 0x400 * self.spec_name_table(),
    {
        match (self.contains(Self::NAMETABLE2), self.contains(Self::NAMETABLE1)) {
            (false, false) => 0x2000,
            (false, true) => 0x2400,
            (true, false) => 0x2800,
            (true, true) => 0x2C00,
        }
    }
}

/// How setting and clearing a flag shows in the bits.
pub proof fn lemma_flags(bits: u8)
    by (bit_vector)
    ensures
        (bits | 0x80) & 0x80 == 0x80,
        (bits & !0x80u8) & 0x80 != 0x80,
        (bits | 0x40) & 0x40 == 0x40,
        (bits & !0x40u8) & 0x40 != 0x40,
        (bits | 0x40) & 0x80 == bits & 0x80,
        (bits & !0x40u8) & 0x80 == bits & 0x80,
        (bits | 0x80) & 0x40 == bits & 0x40,
        (bits & !0x80u8) & 0x40 == bits & 0x40,
{
}

/// The status register, $2002.
#[derive(Debug, Clone, Copy, PartialEq, Eq, Structural)]
pub struct StatusRegister {
    pub bits: u8,
}

impl StatusRegister {
    pub const PPU_OPEN_BUS: u8 = 0b0001_1111;

    pub const SPRITE_OVERFLOW: u8 = 0b0010_0000;

    pub const SPRITE_ZERO_HIT: u8 = 0b0100_0000;

    pub const VBLANK_HAS_STARTED: u8 = 0b1000_0000;

    pub fn new() -> (register: Self)
        ensures
            register.bits == 0,
    {
        StatusRegister { bits: 0 }
    }

    /// True when all bits of `flag` are set.
    pub open spec fn spec_contains(self, flag: u8) -> bool {
        self.bits & flag == flag
    }

    /// The register with the bits of `flag` set or cleared.
    pub open spec fn spec_set(self, flag: u8, value: bool) -> Self {
        if value {
            StatusRegister { bits: self.bits | flag }
        } else {
            StatusRegister { bits: self.bits & !flag }
        }
    }

    pub fn set(&mut self, flag: u8, value: bool)
        ensures
            *final(self) == old(self).spec_set(flag, value),
    {
        if value {
            self.bits = self.bits | flag;
        } else {
            self.bits = self.bits & !flag;
        }
    }

    pub fn is_in_vblank(&mut self) -> (vblank: bool)
        ensures
            vblank == old(self).spec_contains(Self::VBLANK_HAS_STARTED),
            *final(self) == *old(self),
    {
        self.bits & Self::VBLANK_HAS_STARTED == Self::VBLANK_HAS_STARTED
    }

    pub fn set_vblank_status(&mut self, value: bool)
        ensures
            *final(self) == old(self).spec_set(Self::VBLANK_HAS_STARTED, value),
            final(self).spec_contains(Self::VBLANK_HAS_STARTED) == value,
            final(self).spec_contains(Self::SPRITE_ZERO_HIT) == old(self).spec_contains(
                Self::SPRITE_ZERO_HIT,
            ),
    {
        proof {
            lemma_flags(self.bits);
        }
        self.set(Self::VBLANK_HAS_STARTED, value)
    }

    pub fn reset_vblank_status(&mut self)
        ensures
            *final(self) == old(self).spec_set(Self::VBLANK_HAS_STARTED, false),
            !final(self).spec_contains(Self::VBLANK_HAS_STARTED),
    {
        self.set_vblank_status(false)
    }

    pub fn set_sprite_zero_hit(&mut self, value: bool)
        ensures
            *final(self) == old(self).spec_set(Self::SPRITE_ZERO_HIT, value),
            final(self).spec_contains(Self::SPRITE_ZERO_HIT) == value,
            final(self).spec_contains(Self::VBLANK_HAS_STARTED) == old(self).spec_contains(
                Self::VBLANK_HAS_STARTED,
            ),
    {
        proof {
            lemma_flags(self.bits);
        }
        self.set(Self::SPRITE_ZERO_HIT, value)
    }

    pub fn update(&mut self, data: u8)
        ensures
            final(self).bits == data,
    {
        self.bits = data;
    }
}

/// The mask register, $2001.
#[derive(Debug, Clone, Copy, PartialEq, Eq, Structural)]
pub struct MaskRegister {
    pub bits: u8,
}

impl MaskRegister {
    pub const GRAYSCALE: u8 = 0b0000_0001;

    pub const SHOW_BACKGROUND_IN_LEFT: u8 = 0b0000_0010;

    pub const SHOW_SPRITES_IN_LEFT: u8 = 0b0000_0100;

    pub const SHOW_BACKGROUND: u8 = 0b0000_1000;

    pub const SHOW_SPRITES: u8 = 0b0001_0000;

    pub const EMPHASIZE_RED: u8 = 0b0010_0000;

    pub const EMPHASIZE_GREEN: u8 = 0b0100_0000;

    pub const EMPHASIZE_BLUE: u8 = 0b1000_0000;

    pub fn new() -> (register: Self)
        ensures
            register.bits == 0,
    {
        MaskRegister { bits: 0 }
    }

    pub open spec fn spec_show_sprites(self) -> bool {
        self.bits & Self::SHOW_SPRITES == Self::SHOW_SPRITES
    }

    pub fn show_sprites(&self) -> (show: bool)
        ensures
            show == self.spec_show_sprites(),
    {
        self.bits & Self::SHOW_SPRITES == Self::SHOW_SPRITES
    }

    pub fn update(&mut self, data: u8)
        ensures
            final(self).bits == data,
    {
        self.bits = data;
    }
}

/// The scroll register behind $2005: two writes fill its two
/// halves in turn.
#[derive(Debug, Clone, Copy, PartialEq, Eq, Structural)]
pub struct ScrollRegister {
    pub scroll_x: u8,
    pub scroll_y: u8,
    /// True when the next write goes to the horizontal half.
    pub write_x: bool,
}

impl ScrollRegister {
    pub fn new() -> (register: Self)
        ensures
            register == (ScrollRegister { scroll_x: 0, scroll_y: 0, write_x: false }),
    {
        ScrollRegister { scroll_x: 0, scroll_y: 0, write_x: false }
    }

    /// The register after a write to $2005.
    pub open spec fn spec_set(self, data: u8) -> Self {
        if self.write_x {
            ScrollRegister { scroll_x: data, write_x: false, ..self }
        } else {
            ScrollRegister { scroll_y: data, write_x: true, ..self }
        }
    }

    pub fn set(&mut self, data: u8)
        ensures
            *final(self) == old(self).spec_set(data),
    {
        if self.write_x {
            self.scroll_x = data;
        } else {
            self.scroll_y = data;
        }
        self.write_x = !self.write_x;
    }

    /// The register after a read of the status register, which makes the
    /// next write go to the horizontal half.
    pub open spec fn spec_reset(self) -> Self {
        ScrollRegister { write_x: true, ..self }
    }

    pub fn reset(&mut self)
        ensures
            *final(self) == old(self).spec_reset(),
    {
        self.write_x = true;
    }
}

/// Size of the picture unit's own video memory: two name tables.
pub const VRAM_SIZE: usize = 2048;

/// Size of the palette memory.
pub const PALETTE_SIZE: usize = 32;

/// Size of the sprite memory.
pub const OAM_SIZE: usize = 256;

/// Dots in a scanline.
pub const SCANLINE_CYCLES: usize = 341;

/// Scanlines in a frame.
pub const FRAME_SCANLINES: usize = 262;

/// The scanline at which the vertical blank begins.
pub const VBLANK_SCANLINE: usize = 241;

/// Where the name tables begin in the picture unit's address space.
pub const NAME_TABLES_BASE: u16 = 0x2000;

/// Where the palette begins in the picture unit's address space.
pub const PALETTE_BASE: u16 = 0x3F00;

/// What the masks on a video address amount to.
pub proof fn lemma_mirror_bits(addr: u16)
    by (bit_vector)
    ensures
        addr & 0x2000 != 0 ==> (addr & 0x2FFF) >= 0x2000 && (addr & 0x2FFF) - 0x2000 == addr
            % 0x1000,
        0x2000 <= addr <= 0x3FFF ==> addr & 0x2000 != 0,
{
}

/// The place in video memory of a name-table address, which has bit 13
/// set. The address is first taken into the four name tables of $400 bytes
/// each; vertical mirroring then shows the first two tables again as the
/// third and fourth, horizontal mirroring shows the first as the second and
/// the second as the third and fourth.
pub open spec fn spec_mirror_vram_addr(mirroring: Mirroring, addr: u16) -> u16 {
    let vram_index = addr % 0x1000;
    let name_table = vram_index / 0x400;
    if mirroring == Mirroring::VERTICAL && name_table >= 2 {
        (vram_index - 0x800) as u16
    } else if mirroring == Mirroring::HORIZONTAL && (name_table == 1 || name_table == 2) {
        (vram_index - 0x400) as u16
    } else if mirroring == Mirroring::HORIZONTAL && name_table == 3 {
        (vram_index - 0x800) as u16
    } else {
        vram_index as u16
    }
}

/// The picture unit as a value: what `NesPPU` holds, with each memory as
/// the sequence of its bytes.
pub struct PpuState {
    pub chr_rom: Seq<u8>,
    pub palette_table: Seq<u8>,
    pub vram: Seq<u8>,
    pub mirroring: Mirroring,
    pub cycles: usize,
    pub scanline: usize,
    pub nmi_interrupt: Option<i32>,
    pub internal_data_buf: u8,
    pub ctrl: ControlRegister,
    pub mask: MaskRegister,
    pub status: StatusRegister,
    pub oam_addr: u8,
    pub oam_data: Seq<u8>,
    pub scroll: ScrollRegister,
    pub addr: AddrRegister,
}

/// The picture processing unit.
pub struct NesPPU {
    /// The cartridge's character memory.
    pub chr_rom: Vec<u8>,
    pub palette_table: [u8; 32],
    pub vram: [u8; 2048],
    pub mirroring: Mirroring,
    /// Dots since the current scanline began.
    pub cycles: usize,
    pub scanline: usize,
    /// Set when the unit asks the processor for a non-maskable interrupt.
    pub nmi_interrupt: Option<i32>,
    /// What the last read through $2007 left in the read buffer.
    pub internal_data_buf: u8,
    pub ctrl: ControlRegister,
    pub mask: MaskRegister,
    pub status: StatusRegister,
    pub oam_addr: u8,
    pub oam_data: [u8; 256],
    pub scroll: ScrollRegister,
    pub addr: AddrRegister,
}

impl View for NesPPU {
    type V = PpuState;

    open spec fn view(&self) -> PpuState {
        PpuState {
            chr_rom: self.chr_rom@,
            palette_table: self.palette_table@,
            vram: self.vram@,
            mirroring: self.mirroring,
            cycles: self.cycles,
            scanline: self.scanline,
            nmi_interrupt: self.nmi_interrupt,
            internal_data_buf: self.internal_data_buf,
            ctrl: self.ctrl,
            mask: self.mask,
            status: self.status,
            oam_addr: self.oam_addr,
            oam_data: self.oam_data@,
            scroll: self.scroll,
            addr: self.addr,
        }
    }
}

impl PpuState {
    /// The unit's invariant: the memories have their sizes, the address
    /// register holds 14 bits, and the beam is inside the frame.
    pub open spec fn wf(self) -> bool {
        &&& self.palette_table.len() == PALETTE_SIZE
        &&& self.vram.len() == VRAM_SIZE
        &&& self.oam_data.len() == OAM_SIZE
        &&& self.addr.wf()
        &&& self.cycles < SCANLINE_CYCLES
        &&& self.scanline < FRAME_SCANLINES
    }

    /// The unit with the address moved on by the control register's step.
    pub open spec fn increment_vram_addr(self) -> Self {
        PpuState {
            addr: self.addr.spec_increment(self.ctrl.spec_vram_addr_increment()),
            ..self
        }
    }

    /// True when a write through $2007 finds its place: a name-table
    /// address must lead into video memory, a palette address into the
    /// palette's 32 bytes. Writes to the pattern tables and to $3000 to
    /// $3EFF are dropped.
    pub open spec fn data_writable(self) -> bool {
        let addr = self.addr.spec_get();
        &&& 0x2000 <= addr <= 0x2FFF ==> spec_mirror_vram_addr(self.mirroring, addr) < VRAM_SIZE
        &&& addr >= PALETTE_BASE ==> addr - PALETTE_BASE < PALETTE_SIZE
    }

    /// A write through $2007.
    pub open spec fn write_to_data(self, value: u8) -> Self {
        let addr = self.addr.spec_get();
        let moved = self.increment_vram_addr();
        if 0x2000 <= addr <= 0x2FFF {
            PpuState {
                vram: self.vram.update(
                    spec_mirror_vram_addr(self.mirroring, addr) as int,
                    value,
                ),
                ..moved
            }
        } else if addr >= PALETTE_BASE {
            PpuState {
                palette_table: self.palette_table.update(addr - PALETTE_BASE, value),
                ..moved
            }
        } else {
            moved
        }
    }

    /// True when a read through $2007 finds its place: a pattern-table
    /// address must lie in the character memory, a name-table address must
    /// lead into video memory, a palette address into the palette's 32
    /// bytes, and the range $3000 to $3EFF cannot be read.
    pub open spec fn data_readable(self) -> bool {
        let addr = self.addr.spec_get();
        &&& addr <= 0x1FFF ==> addr < self.chr_rom.len()
        &&& 0x2000 <= addr <= 0x2FFF ==> spec_mirror_vram_addr(self.mirroring, addr) < VRAM_SIZE
        &&& !(0x3000 <= addr <= 0x3EFF)
        &&& addr >= PALETTE_BASE ==> addr - PALETTE_BASE < PALETTE_SIZE
    }

    /// The byte that the address register points at.
    pub open spec fn addressed_byte(self) -> u8 {
        let addr = self.addr.spec_get();
        if addr <= 0x1FFF {
            self.chr_rom[addr as int]
        } else if addr <= 0x2FFF {
            self.vram[spec_mirror_vram_addr(self.mirroring, addr) as int]
        } else {
            self.palette_table[addr - PALETTE_BASE]
        }
    }

    /// A read through $2007 and what it returns: the palette is read at
    /// once; everything else goes through the read buffer, so that a read
    /// returns what the read before it fetched.
    pub open spec fn read_data(self) -> (Self, u8) {
        let addr = self.addr.spec_get();
        let moved = self.increment_vram_addr();
        if addr >= PALETTE_BASE {
            (moved, self.addressed_byte())
        } else {
            (
                PpuState { internal_data_buf: self.addressed_byte(), ..moved },
                self.internal_data_buf,
            )
        }
    }

    /// True when a write to $2000 asks for an interrupt: it sets bit 7,
    /// which it finds clear, while the vertical blank is on.
    pub open spec fn ctrl_write_raises_nmi(self, value: u8) -> bool {
        &&& !self.ctrl.spec_contains(ControlRegister::GENERATE_NMI)
        &&& value & ControlRegister::GENERATE_NMI == ControlRegister::GENERATE_NMI
        &&& self.status.spec_contains(StatusRegister::VBLANK_HAS_STARTED)
    }

    /// A write to $2000. A write that finds bit 7 clear leaves it set
    /// whatever the value holds.
    pub open spec fn write_to_ctrl(self, value: u8) -> Self {
        PpuState {
            ctrl: if !self.ctrl.spec_contains(ControlRegister::GENERATE_NMI) {
                ControlRegister { bits: value | ControlRegister::GENERATE_NMI }
            } else {
                ControlRegister { bits: value }
            },
            nmi_interrupt: if self.ctrl_write_raises_nmi(value) {
                Some(1)
            } else {
                self.nmi_interrupt
            },
            ..self
        }
    }

    /// A write to $2004: the byte goes to the sprite memory, and the
    /// sprite address moves on and wraps.
    pub open spec fn write_to_oam_data(self, value: u8) -> Self {
        PpuState {
            oam_data: self.oam_data.update(self.oam_addr as int, value),
            oam_addr: ((self.oam_addr + 1) % 256) as u8,
            ..self
        }
    }

    /// True when sprite 0 is hit in the scanline that ends after `cycle`
    /// dots: the sprite lies in this scanline, at or before the dot, and
    /// sprites are shown.
    pub open spec fn is_sprite_zero_hit(self, cycle: usize) -> bool {
        self.oam_data[0] == self.scanline && self.oam_data[3] <= cycle
            && self.mask.spec_show_sprites()
    }

    /// The status register at the end of a scanline that ran for `total`
    /// dots, before the next one begins.
    pub open spec fn status_at_line_end(self, total: usize) -> StatusRegister {
        if self.is_sprite_zero_hit(total) {
            self.status.spec_set(StatusRegister::SPRITE_ZERO_HIT, true)
        } else {
            self.status
        }
    }

    /// The unit after `cycles` dots and whether a frame has ended. When a
    /// scanline is full the next begins. Scanline 241 begins the vertical
    /// blank, clears the sprite hit, and asks for an interrupt if bit 7 of
    /// the control register is set, which it is from then on. The end of
    /// the last scanline begins a new frame with all of this cleared.
    /// Scanline 257 sets the sprite address to 0.
    pub open spec fn tick(self, cycles: u8) -> (Self, bool) {
        let total = (self.cycles + cycles) as usize;
        if total < SCANLINE_CYCLES {
            (PpuState { cycles: total, ..self }, false)
        } else {
            let line = (self.scanline + 1) as usize;
            let status = self.status_at_line_end(total);
            let next = PpuState {
                cycles: (total - SCANLINE_CYCLES) as usize,
                scanline: line,
                status,
                ..self
            };
            if line == VBLANK_SCANLINE {
                (
                    PpuState {
                        status: status.spec_set(StatusRegister::VBLANK_HAS_STARTED, true).spec_set(
                            StatusRegister::SPRITE_ZERO_HIT,
                            false,
                        ),
                        ctrl: self.ctrl.spec_after_nmi_query(),
                        nmi_interrupt: if self.ctrl.spec_contains(ControlRegister::GENERATE_NMI) {
                            Some(1)
                        } else {
                            self.nmi_interrupt
                        },
                        ..next
                    },
                    false,
                )
            } else if line >= FRAME_SCANLINES {
                (
                    PpuState {
                        scanline: 0,
                        status: status.spec_set(StatusRegister::SPRITE_ZERO_HIT, false).spec_set(
                            StatusRegister::VBLANK_HAS_STARTED,
                            false,
                        ),
                        nmi_interrupt: None,
                        ..next
                    },
                    true,
                )
            } else if line == 257 {
                (PpuState { oam_addr: 0, ..next }, false)
            } else {
                (next, false)
            }
        }
    }
}

impl NesPPU {
    /// The unit at power-on, wired to a cartridge's character memory.
    pub fn new(chr_rom: Vec<u8>, mirroring: Mirroring) -> (ppu: Self)
        ensures
            ppu@.wf(),
            ppu@.chr_rom == chr_rom@,
            ppu@.mirroring == mirroring,
            ppu@.palette_table == Seq::new(PALETTE_SIZE as nat, |i: int| 0u8),
            ppu@.vram == Seq::new(VRAM_SIZE as nat, |i: int| 0u8),
            ppu@.oam_data == Seq::new(OAM_SIZE as nat, |i: int| 0u8),
            ppu@.oam_addr == 0,
            ppu@.addr.spec_get() == 0,
            ppu@.addr.hi_ptr,
            ppu@.ctrl.bits == 0,
            ppu@.status.bits == 0,
            ppu@.mask.bits == 0,
            ppu@.scroll == (ScrollRegister { scroll_x: 0, scroll_y: 0, write_x: false }),
            ppu@.internal_data_buf == 0,
            ppu@.cycles == 0,
            ppu@.scanline == 0,
            ppu@.nmi_interrupt == None::<i32>,
    {
        let palette_table: [u8; 32] = [0; 32];
        let vram: [u8; 2048] = [0; 2048];
        let oam_data: [u8; 256] = [0; 256];
        assert(palette_table@ =~= Seq::new(PALETTE_SIZE as nat, |i: int| 0u8));
        assert(vram@ =~= Seq::new(VRAM_SIZE as nat, |i: int| 0u8));
        assert(oam_data@ =~= Seq::new(OAM_SIZE as nat, |i: int| 0u8));
        NesPPU {
            chr_rom,
            palette_table,
            vram,
            oam_addr: 0,
            oam_data,
            mirroring,
            addr: AddrRegister::new(),
            ctrl: ControlRegister::new(),
            status: StatusRegister::new(),
            mask: MaskRegister::new(),
            scroll: ScrollRegister::new(),
            internal_data_buf: 0,
            cycles: 0,
            scanline: 0,
            nmi_interrupt: None,
        }
    }

    /// A write to $2006.
    pub fn write_to_ppu_addr(&mut self, value: u8)
        requires
            old(self)@.wf(),
        ensures
            final(self)@ == (PpuState { addr: old(self)@.addr.spec_update(value), ..old(self)@ }),
            final(self)@.wf(),
    {
        self.addr.update(value);
    }

    /// Tests whether a write through $2007 finds its place.
    pub fn can_write_data(&self) -> (ok: bool)
        requires
            self@.wf(),
        ensures
            ok == self@.data_writable(),
    {
        let addr = self.addr.get();
        match addr {
            0x2000..=0x2FFF => {
                proof {
                    lemma_mirror_bits(addr);
                }
                (self.mirror_vram_addr(addr) as usize) < VRAM_SIZE
            },
            0x3F00..=0x3FFF => ((addr - PALETTE_BASE) as usize) < PALETTE_SIZE,
            _ => true,
        }
    }

    /// A write through $2007.
    pub fn write_to_data(&mut self, value: u8)
        requires
            old(self)@.wf(),
            old(self)@.data_writable(),
        ensures
            final(self)@ == old(self)@.write_to_data(value),
            final(self)@.wf(),
    {
        let addr = self.addr.get();
        self.increment_vram_addr();
        match addr {
            0..=0x1FFF => {},
            0x2000..=0x2FFF => {
                proof {
                    lemma_mirror_bits(addr);
                }
                let place = self.mirror_vram_addr(addr);
                self.vram[place as usize] = value;
            },
            0x3000..=0x3EFF => {},
            _ => {
                self.palette_table[(addr - 0x3F00) as usize] = value;
            },
        }
    }

    /// A write to $2000.
    pub fn write_to_ctrl(&mut self, value: u8)
        requires
            old(self)@.wf(),
        ensures
            final(self)@ == old(self)@.write_to_ctrl(value),
            final(self)@.wf(),
    {
        let before_nmi_status = self.ctrl.generate_vblank_nmi();
        self.ctrl.update(value);
        proof {
            lemma_flags(value);
        }
        if !before_nmi_status && self.ctrl.generate_vblank_nmi() && self.status.is_in_vblank() {
            self.nmi_interrupt = Some(1);
        }
    }

    /// A read of $2002: returns the status bits and makes the next write to
    /// the scroll register go to its horizontal half.
    pub fn read_status(&mut self) -> (bits: u8)
        requires
            old(self)@.wf(),
        ensures
            bits == old(self)@.status.bits,
            final(self)@ == (PpuState { scroll: old(self)@.scroll.spec_reset(), ..old(self)@ }),
            final(self)@.wf(),
    {
        self.scroll.reset();
        self.status.bits
    }

    /// A write to $2002.
    pub fn write_to_status(&mut self, value: u8)
        requires
            old(self)@.wf(),
        ensures
            final(self)@ == (PpuState { status: StatusRegister { bits: value }, ..old(self)@ }),
            final(self)@.wf(),
    {
        self.status.update(value);
    }

    /// A write to $2001.
    pub fn write_to_mask(&mut self, value: u8)
        requires
            old(self)@.wf(),
        ensures
            final(self)@ == (PpuState { mask: MaskRegister { bits: value }, ..old(self)@ }),
            final(self)@.wf(),
    {
        self.mask.update(value);
    }

    /// A write to $2003.
    pub fn write_to_oam_addr(&mut self, value: u8)
        requires
            old(self)@.wf(),
        ensures
            final(self)@ == (PpuState { oam_addr: value, ..old(self)@ }),
            final(self)@.wf(),
    {
        self.oam_addr = value;
    }

    /// A write to $2004.
    pub fn write_to_oam_data(&mut self, value: u8)
        requires
            old(self)@.wf(),
        ensures
            final(self)@ == old(self)@.write_to_oam_data(value),
            final(self)@.wf(),
    {
        self.oam_data[self.oam_addr as usize] = value;
        self.oam_addr = self.oam_addr.wrapping_add(1);
    }

    /// A read of $2004.
    pub fn read_oam_data(&self) -> (data: u8)
        requires
            self@.wf(),
        ensures
            data == self@.oam_data[self@.oam_addr as int],
    {
        self.oam_data[self.oam_addr as usize]
    }

    /// A transfer of a whole page into the sprite memory.
    pub fn write_to_oam_dma(&mut self, values: [u8; 256])
        requires
            old(self)@.wf(),
        ensures
            final(self)@ == (PpuState { oam_data: values@, ..old(self)@ }),
            final(self)@.wf(),
    {
        self.oam_data = values;
    }

    /// A write to $2005.
    pub fn write_to_scroll(&mut self, value: u8)
        requires
            old(self)@.wf(),
        ensures
            final(self)@ == (PpuState { scroll: old(self)@.scroll.spec_set(value), ..old(self)@ }),
            final(self)@.wf(),
    {
        self.scroll.set(value);
    }

    fn increment_vram_addr(&mut self)
        requires
            old(self)@.wf(),
        ensures
            final(self)@ == old(self)@.increment_vram_addr(),
            final(self)@.wf(),
    {
        self.addr.increment(self.ctrl.vram_addr_increment());
    }

    /// Tests whether a read through $2007 finds its place.
    pub fn can_read_data(&self) -> (ok: bool)
        requires
            self@.wf(),
        ensures
            ok == self@.data_readable(),
    {
        let addr = self.addr.get();
        match addr {
            0..=0x1FFF => (addr as usize) < self.chr_rom.len(),
            0x2000..=0x2FFF => {
                proof {
                    lemma_mirror_bits(addr);
                }
                (self.mirror_vram_addr(addr) as usize) < VRAM_SIZE
            },
            0x3000..=0x3EFF => false,
            _ => ((addr - PALETTE_BASE) as usize) < PALETTE_SIZE,
        }
    }

    /// A read through $2007.
    pub fn read_data(&mut self) -> (data: u8)
        requires
            old(self)@.wf(),
            old(self)@.data_readable(),
        ensures
            final(self)@ == old(self)@.read_data().0,
            data == old(self)@.read_data().1,
            final(self)@.wf(),
    {
        let addr = self.addr.get();
        self.increment_vram_addr();
        match addr {
            0..=0x1FFF => {
                let result = self.internal_data_buf;
                self.internal_data_buf = self.chr_rom[addr as usize];
                result
            },
            0x2000..=0x2FFF => {
                proof {
                    lemma_mirror_bits(addr);
                }
                let result = self.internal_data_buf;
                self.internal_data_buf = self.vram[self.mirror_vram_addr(addr) as usize];
                result
            },
            _ => self.palette_table[(addr - 0x3F00) as usize],
        }
    }

    /// The place in video memory of a name-table address.
    pub fn mirror_vram_addr(&self, addr: u16) -> (place: u16)
        requires
            addr & 0x2000 != 0,
        ensures
            place == spec_mirror_vram_addr(self.mirroring, addr),
            self.mirroring != Mirroring::FOUR_SCREEN ==> place < VRAM_SIZE,
    {
        proof {
            lemma_mirror_bits(addr);
        }
        let mirrored_vram = addr & 0b10_1111_1111_1111;
        let vram_index = mirrored_vram - 0x2000;
        let name_table = vram_index / 0x400;
        match (&self.mirroring, name_table) {
            (Mirroring::VERTICAL, 2) => vram_index - 0x800,
            (Mirroring::VERTICAL, 3) => vram_index - 0x800,
            (Mirroring::HORIZONTAL, 2) => vram_index - 0x400,
            (Mirroring::HORIZONTAL, 1) => vram_index - 0x400,
            (Mirroring::HORIZONTAL, 3) => vram_index - 0x800,
            _ => vram_index,
        }
    }

    /// Lets the unit run for `cycles` dots. Returns whether a frame has
    /// ended.
    pub fn tick(&mut self, cycles: u8) -> (frame_ended: bool)
        requires
            old(self)@.wf(),
        ensures
            final(self)@ == old(self)@.tick(cycles).0,
            frame_ended == old(self)@.tick(cycles).1,
            final(self)@.wf(),
    {
        self.cycles += cycles as usize;
        if self.cycles >= 341 {
            if self.is_sprite_zero_hit(self.cycles) {
                self.status.set_sprite_zero_hit(true);
            }
            self.cycles = self.cycles - 341;
            self.scanline += 1;
            if self.scanline == 241 {
                self.status.set_vblank_status(true);
                self.status.set_sprite_zero_hit(false);
                if self.ctrl.generate_vblank_nmi() {
                    self.nmi_interrupt = Some(1);
                }
            }
            if self.scanline >= 262 {
                self.scanline = 0;
                self.status.set_sprite_zero_hit(false);
                self.status.reset_vblank_status();
                self.nmi_interrupt = None;
                return true;
            }
            if self.scanline == 257 {
                self.oam_addr = 0;
            }
        }
        return false;
    }

    fn is_sprite_zero_hit(&self, cycle: usize) -> (hit: bool)
        ensures
            hit == self@.is_sprite_zero_hit(cycle),
    {
        let y = self.oam_data[0] as usize;
        let x = self.oam_data[3] as usize;
        (y == self.scanline) && x <= cycle && self.mask.show_sprites()
    }
}

} // verus!
