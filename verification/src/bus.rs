//! The processor's bus: 2 KiB of memory, the registers of the picture and the
//! audio unit and of the controller, and the cartridge.
use vstd::prelude::*;
use crate::apu::{ApuState, Ch4Register, NesAPU};
use crate::joypad::Joypad;
use crate::mapper::{AnyMapper, Mapper};
use crate::ppu::{MaskRegister, NesPPU, PpuState, StatusRegister};

verus! {

pub const RAM: u16 = 0x0000;

pub const RAM_MIRRORS_END: u16 = 0x1FFF;

pub const PPU_REGISTERS_MIRRORS_END: u16 = 0x3FFF;

pub const PRG_RAM: u16 = 0x6000;

pub const PRG_ROM: u16 = 0x8000;

pub const PRG_ROM_END: u16 = 0xFFFF;

/// Size of the processor's own memory.
pub const CPU_RAM_SIZE: usize = 2048;

/// Dots that the picture unit runs while a sprite transfer holds the
/// processor.
pub const DMA_DOTS: usize = 513;

/// Something that the processor can read bytes from and write bytes to.
pub trait Mem {
    /// What must hold of the memory before an access, and holds after it.
    spec fn mem_wf(&self) -> bool;

    fn mem_read(&mut self, addr: u16) -> (data: u8)
        requires
            old(self).mem_wf(),
        ensures
            final(self).mem_wf(),
    ;

    fn mem_write(&mut self, addr: u16, data: u8)
        requires
            old(self).mem_wf(),
        ensures
            final(self).mem_wf(),
    ;
}

/// What the masks on a bus address amount to.
pub proof fn lemma_bus_address(addr: u16, page: u8, low: u8)
    by (bit_vector)
    ensures
        addr & 0x07FF == addr % 0x800,
        0x2000 <= addr <= 0x3FFF ==> addr & 0x2007 == 0x2000 + addr % 8,
        ((page as u16) << 8) | (low as u16) == page as u16 * 256 + low as u16,
{
}

/// The bus as a value: what `Bus` holds, with the units as values and the
/// memory as the sequence of its bytes.
pub struct BusView {
    pub cpu_vram: Seq<u8>,
    pub ppu: PpuState,
    pub apu: ApuState,
    pub mapper: AnyMapper,
    pub joypad1: Joypad,
    pub cycles: usize,
    pub fault: bool,
    pub prg_ram_written: bool,
}

/// The bus with the units that sit on it.
pub struct Bus {
    pub cpu_vram: [u8; 2048],
    pub ppu: NesPPU,
    pub apu: NesAPU,
    pub mapper: AnyMapper,
    pub joypad1: Joypad,
    /// CPU cycles since power-on, wrapping.
    pub cycles: usize,
    /// Set, and never cleared, by an access that found no place: a read
    /// or write of cartridge memory that the selected banks do not reach,
    /// or an access through the picture unit's data register that leads
    /// nowhere. Such a read returns 0 and such a write is dropped.
    pub fault: bool,
    /// Set by every write to the cartridge's program RAM, for the caller
    /// to clear when it has saved the RAM.
    pub prg_ram_written: bool,
}

impl View for Bus {
    type V = BusView;

    open spec fn view(&self) -> BusView {
        BusView {
            cpu_vram: self.cpu_vram@,
            ppu: self.ppu@,
            apu: self.apu@,
            mapper: self.mapper,
            joypad1: self.joypad1,
            cycles: self.cycles,
            fault: self.fault,
            prg_ram_written: self.prg_ram_written,
        }
    }
}

/// The address behind a bus address: the picture unit's eight registers repeat
/// up to $3FFF.
pub open spec fn register_address(addr: u16) -> u16 {
    if 0x2008 <= addr <= PPU_REGISTERS_MIRRORS_END {
        (0x2000 + addr % 8) as u16
    } else {
        addr
    }
}

/// The picture unit after `n` single dots.
pub open spec fn ppu_after_dots(ppu: PpuState, n: nat) -> PpuState
    decreases n,
{
    if n == 0 {
        ppu
    } else {
        ppu_after_dots(ppu, (n - 1) as nat).tick(1).0
    }
}

impl BusView {
    pub open spec fn wf(self) -> bool {
        &&& self.cpu_vram.len() == CPU_RAM_SIZE
        &&& self.ppu.wf()
        &&& self.apu.wf()
        &&& self.mapper.wf()
        &&& self.joypad1.wf()
    }

    /// The bus with the fault recorded.
    pub open spec fn faulted(self) -> Self {
        BusView { fault: true, ..self }
    }

    /// A read and what it returns. The memory repeats every 2 KiB up to
    /// $1FFF. Of the picture unit's registers, control, mask, status, sprite
    /// data and data can be read; the audio unit offers its status at
    /// $4015, the controller its report at $4016; from $6000 on the
    /// cartridge answers. Everything else reads as 0.
    #[verifier::opaque]
    pub open spec fn mem_read(self, addr: u16) -> (Self, u8) {
        let target = register_address(addr);
        if target <= RAM_MIRRORS_END {
            (self, self.cpu_vram[target as int % 0x800])
        } else if target == 0x2000 {
            (self, self.ppu.ctrl.bits)
        } else if target == 0x2001 {
            (self, self.ppu.mask.bits)
        } else if target == 0x2002 {
            (
                BusView {
                    ppu: PpuState { scroll: self.ppu.scroll.spec_reset(), ..self.ppu },
                    ..self
                },
                self.ppu.status.bits,
            )
        } else if target == 0x2004 {
            (self, self.ppu.oam_data[self.ppu.oam_addr as int])
        } else if target == 0x2007 {
            if self.ppu.data_readable() {
                (BusView { ppu: self.ppu.read_data().0, ..self }, self.ppu.read_data().1)
            } else {
                (self.faulted(), 0)
            }
        } else if target == 0x4015 {
            (BusView { apu: self.apu.read_status().0, ..self }, self.apu.read_status().1)
        } else if target == 0x4016 {
            (
                BusView { joypad1: self.joypad1.spec_read(), ..self },
                self.joypad1.spec_read_value(),
            )
        } else if PRG_RAM <= target < PRG_ROM {
            if self.mapper.prg_ram_mapped(target) {
                (self, self.mapper.spec_read_prg_ram(target))
            } else {
                (self.faulted(), 0)
            }
        } else if target >= PRG_ROM {
            if self.mapper.prg_rom_mapped(target) {
                (self, self.mapper.spec_read_prg_rom(target))
            } else {
                (self.faulted(), 0)
            }
        } else {
            (self, 0)
        }
    }

    /// The bus after the reads of the first `n` bytes of a page, and the
    /// bytes read.
    pub open spec fn read_page(self, page: u8, n: nat) -> (Self, Seq<u8>)
        decreases n,
    {
        if n == 0 {
            (self, Seq::empty())
        } else {
            let (before, bytes) = self.read_page(page, (n - 1) as nat);
            let (after, byte) = before.mem_read((page * 256 + (n - 1)) as u16);
            (after, bytes.push(byte))
        }
    }

    /// A sprite transfer: the 256 bytes of a page are read and become the
    /// sprite memory, and the picture unit runs on meanwhile.
    pub open spec fn oam_dma(self, page: u8) -> Self {
        let (after, bytes) = self.read_page(page, 256);
        BusView {
            ppu: ppu_after_dots(
                PpuState { oam_data: bytes, ..after.ppu },
                DMA_DOTS as nat,
            ),
            ..after
        }
    }

    /// True for the addresses at which a write reaches the cartridge: its
    /// program RAM, or its mapper, which takes the write as a command.
    pub open spec fn is_cartridge(addr: u16) -> bool {
        addr >= PRG_RAM
    }

    /// A write. Behind the picture unit's data register and in the
    /// cartridge's program RAM the write may find no place, which is
    /// recorded as a fault. `mapper_after` is the mapper as the write
    /// leaves it, for a write that reaches the cartridge's program RAM.
    #[verifier::opaque]
    pub open spec fn mem_write(self, addr: u16, data: u8, mapper_after: AnyMapper) -> Self {
        let target = register_address(addr);
        if target <= RAM_MIRRORS_END {
            BusView { cpu_vram: self.cpu_vram.update(target as int % 0x800, data), ..self }
        } else if target == 0x2000 {
            BusView { ppu: self.ppu.write_to_ctrl(data), ..self }
        } else if target == 0x2001 {
            BusView { ppu: PpuState { mask: MaskRegister { bits: data }, ..self.ppu }, ..self }
        } else if target == 0x2002 {
            BusView {
                ppu: PpuState { status: StatusRegister { bits: data }, ..self.ppu },
                ..self
            }
        } else if target == 0x2003 {
            BusView { ppu: PpuState { oam_addr: data, ..self.ppu }, ..self }
        } else if target == 0x2004 {
            BusView { ppu: self.ppu.write_to_oam_data(data), ..self }
        } else if target == 0x2005 {
            BusView {
                ppu: PpuState { scroll: self.ppu.scroll.spec_set(data), ..self.ppu },
                ..self
            }
        } else if target == 0x2006 {
            BusView {
                ppu: PpuState { addr: self.ppu.addr.spec_update(data), ..self.ppu },
                ..self
            }
        } else if target == 0x2007 {
            if self.ppu.data_writable() {
                BusView { ppu: self.ppu.write_to_data(data), ..self }
            } else {
                self.faulted()
            }
        } else if 0x4000 <= target <= 0x4003 {
            BusView { apu: self.apu.write_1ch(target, data), ..self }
        } else if 0x4004 <= target <= 0x4007 {
            BusView { apu: self.apu.write_2ch(target, data), ..self }
        } else if target == 0x4008 || target == 0x400A || target == 0x400B {
            BusView { apu: self.apu.write_3ch(target, data), ..self }
        } else if Ch4Register::is_register(target) {
            BusView { apu: self.apu.write_4ch(target, data), ..self }
        } else if 0x4010 <= target <= 0x4013 {
            BusView { apu: self.apu.write_dmc(target, data), ..self }
        } else if target == 0x4014 {
            self.oam_dma(data)
        } else if target == 0x4015 {
            BusView { apu: self.apu.write_status(data), ..self }
        } else if target == 0x4016 {
            BusView { joypad1: self.joypad1.spec_write(data), ..self }
        } else if target == 0x4017 {
            BusView { apu: self.apu.write_frame_counter(data), ..self }
        } else if PRG_RAM <= target < PRG_ROM {
            if self.mapper.prg_ram_mapped(target) {
                BusView { mapper: mapper_after, prg_ram_written: true, ..self }
            } else {
                self.faulted()
            }
        } else if target >= PRG_ROM {
            BusView { mapper: self.mapper.spec_write(target, data), ..self }
        } else {
            self
        }
    }

    /// True when a mapper can be what a write to the cartridge leaves of
    /// another: it is well formed, of the same kind, and holds the same
    /// program ROM.
    pub open spec fn mapper_follows(before: AnyMapper, after: AnyMapper) -> bool {
        &&& after.wf()
        &&& after.kind() == before.kind()
        &&& after.cartridge().prg_rom == before.cartridge().prg_rom
    }

    /// True when `after` is the mapper as a write leaves it: a write to
    /// mapped program RAM stores the byte there, a write into the program
    /// ROM's range is a command to the mapper, and any other write leaves
    /// the mapper as it is.
    pub open spec fn write_leaves(self, addr: u16, data: u8, after: AnyMapper) -> bool {
        let target = register_address(addr);
        if PRG_RAM <= target < PRG_ROM && self.mapper.prg_ram_mapped(target) {
            self.mapper.wrote_prg_ram(target, data, &after)
        } else if target >= PRG_ROM {
            after == self.mapper.spec_write(target, data)
        } else {
            after == self.mapper
        }
    }

    /// The bus after the units have run for the CPU cycles of one
    /// instruction: the picture unit runs three dots per cycle.
    pub open spec fn tick(self, cycles: u8) -> Self {
        BusView {
            cycles: if self.cycles + cycles > usize::MAX {
                (self.cycles + cycles - usize::MAX - 1) as usize
            } else {
                (self.cycles + cycles) as usize
            },
            ppu: self.ppu.tick((cycles * 3) as u8).0,
            apu: self.apu.tick(cycles),
            ..self
        }
    }

    /// True when a tick makes the picture unit ask for an interrupt that it
    /// did not ask for before: a frame is complete.
    pub open spec fn tick_completes_frame(self, cycles: u8) -> bool {
        self.ppu.nmi_interrupt is None && self.tick(cycles).ppu.nmi_interrupt is Some
    }
}

impl Bus {
    /// A bus with its units.
    pub fn new(apu: NesAPU, ppu: NesPPU, mapper: AnyMapper) -> (bus: Self)
        requires
            apu@.wf(),
            ppu@.wf(),
            mapper.wf(),
        ensures
            bus@.wf(),
            bus@.apu == apu@,
            bus@.ppu == ppu@,
            bus@.mapper == mapper,
            bus@.cpu_vram == Seq::new(CPU_RAM_SIZE as nat, |i: int| 0u8),
            bus@.joypad1 == (Joypad { strobe: false, button_index: 0, button_status: 0 }),
            bus@.cycles == 0,
            !bus@.fault,
            !bus@.prg_ram_written,
    {
        let cpu_vram: [u8; 2048] = [0; 2048];
        assert(cpu_vram@ =~= Seq::new(CPU_RAM_SIZE as nat, |i: int| 0u8));
        Bus {
            cpu_vram,
            ppu,
            apu,
            mapper,
            joypad1: Joypad::new(),
            cycles: 0,
            fault: false,
            prg_ram_written: false,
        }
    }

    /// Lets the units run for the CPU cycles of one instruction. Returns
    /// whether a frame is complete and waits to be shown.
    pub fn tick(&mut self, cycles: u8) -> (frame_complete: bool)
        requires
            old(self)@.wf(),
            cycles <= 85,
        ensures
            final(self)@ == old(self)@.tick(cycles),
            frame_complete == old(self)@.tick_completes_frame(cycles),
            final(self)@.wf(),
    {
        self.cycles = self.cycles.wrapping_add(cycles as usize);
        let nmi_before = self.ppu.nmi_interrupt.is_some();
        self.ppu.tick(cycles * 3);
        let nmi_after = self.ppu.nmi_interrupt.is_some();
        self.apu.tick(cycles);
        !nmi_before && nmi_after
    }

    /// Takes the picture unit's interrupt request, if there is one.
    pub fn poll_nmi_status(&mut self) -> (nmi: Option<i32>)
        requires
            old(self)@.wf(),
        ensures
            nmi == old(self)@.ppu.nmi_interrupt,
            final(self)@ == (BusView {
                ppu: PpuState { nmi_interrupt: None, ..old(self)@.ppu },
                ..old(self)@
            }),
            final(self)@.wf(),
    {
        let res = self.ppu.nmi_interrupt;
        self.ppu.nmi_interrupt = None;
        res
    }

    /// Tells whether the audio unit asks for an interrupt.
    pub fn poll_apu_irq(&mut self) -> (irq: bool)
        ensures
            irq == old(self)@.apu.irq(),
            final(self)@ == old(self)@,
    {
        self.apu.irq()
    }

    /// Reads the byte at an address.
    pub fn read(&mut self, addr: u16) -> (data: u8)
        requires
            old(self)@.wf(),
        ensures
            final(self)@ == old(self)@.mem_read(addr).0,
            data == old(self)@.mem_read(addr).1,
            final(self)@.wf(),
            final(self)@.mapper == old(self)@.mapper,
    {
        proof {
            reveal(BusView::mem_read);
            lemma_bus_address(addr, 0, 0);
        }
        let target: u16 = if 0x2008 <= addr && addr <= PPU_REGISTERS_MIRRORS_END {
            addr & 0b00100000_00000111
        } else {
            addr
        };
        proof {
            lemma_bus_address(target, 0, 0);
        }
        match target {
            0..=0x1FFF => {
                let mirror_down_addr = target & 0b_0000_0111_1111_1111;
                self.cpu_vram[mirror_down_addr as usize]
            },
            0x2003 | 0x2005 | 0x2006 | 0x4014 => 0,
            0x2000 => self.ppu.ctrl.bits,
            0x2001 => self.ppu.mask.bits,
            0x2002 => self.ppu.read_status(),
            0x2004 => self.ppu.read_oam_data(),
            0x2007 => {
                if self.ppu.can_read_data() {
                    self.ppu.read_data()
                } else {
                    self.fault = true;
                    0
                }
            },
            0x4015 => self.apu.read_status(),
            0x4016 => self.joypad1.read(),
            0x4017 => 0,
            0x6000..=0x7FFF => {
                if self.mapper.can_access_prg_ram(target) {
                    self.mapper.read_prg_ram(target)
                } else {
                    self.fault = true;
                    0
                }
            },
            0x8000..=0xFFFF => {
                if self.mapper.can_read_prg_rom(target) {
                    self.mapper.read_prg_rom(target)
                } else {
                    self.fault = true;
                    0
                }
            },
            _ => 0,
        }
    }
}

/// The reads of a page return one byte each.
pub proof fn lemma_read_page_len(bus: BusView, page: u8, n: nat)
    ensures
        bus.read_page(page, n).1.len() == n,
    decreases n,
{
    if n > 0 {
        lemma_read_page_len(bus, page, (n - 1) as nat);
    }
}

impl Bus {
    /// The transfer of a page into the sprite memory.
    fn oam_dma(&mut self, page: u8)
        requires
            old(self)@.wf(),
        ensures
            final(self)@ == old(self)@.oam_dma(page),
            final(self)@.wf(),
            final(self)@.mapper == old(self)@.mapper,
    {
        let mut values: [u8; 256] = [0; 256];
        let mut i: usize = 0;
        while i < 256
            invariant
                0 <= i <= 256,
                self@.wf(),
                self@ == old(self)@.read_page(page, i as nat).0,
                self@.mapper == old(self)@.mapper,
                old(self)@.read_page(page, i as nat).1.len() == i,
                forall|k: int|
                    0 <= k < i ==> values@[k] == old(self)@.read_page(page, i as nat).1[k],
            decreases 256 - i,
        {
            proof {
                lemma_bus_address(0, page, i as u8);
                lemma_read_page_len(old(self)@, page, (i + 1) as nat);
            }
            let byte = self.read(((page as u16) << 8) | i as u16);
            values[i] = byte;
            i += 1;
        }
        assert(values@ =~= old(self)@.read_page(page, 256).1);
        self.ppu.write_to_oam_dma(values);
        let ghost started = self.ppu@;
        let mut n: usize = 0;
        while n < DMA_DOTS
            invariant
                0 <= n <= DMA_DOTS,
                self.ppu@.wf(),
                self.ppu@ == ppu_after_dots(started, n as nat),
                self@ == (BusView { ppu: self.ppu@, ..old(self)@.read_page(page, 256).0 }),
            decreases DMA_DOTS - n,
        {
            self.ppu.tick(1);
            n += 1;
        }
    }

    /// Writes a byte to an address.
    pub fn write(&mut self, addr: u16, data: u8)
        requires
            old(self)@.wf(),
        ensures
            final(self)@ == old(self)@.mem_write(addr, data, final(self)@.mapper),
            old(self)@.write_leaves(addr, data, final(self)@.mapper),
            BusView::mapper_follows(old(self)@.mapper, final(self)@.mapper),
            !BusView::is_cartridge(register_address(addr)) ==> final(self)@.mapper == old(
                self,
            )@.mapper,
            final(self)@.wf(),
    {
        proof {
            reveal(BusView::mem_write);
            lemma_bus_address(addr, 0, 0);
        }
        let target: u16 = if 0x2008 <= addr && addr <= PPU_REGISTERS_MIRRORS_END {
            addr & 0b00100000_00000111
        } else {
            addr
        };
        proof {
            lemma_bus_address(target, 0, 0);
        }
        match target {
            0..=0x1FFF => {
                let mirror_down_addr = target & 0b_0000_0111_1111_1111;
                self.cpu_vram[mirror_down_addr as usize] = data;
            },
            0x2000 => self.ppu.write_to_ctrl(data),
            0x2001 => self.ppu.write_to_mask(data),
            0x2002 => self.ppu.write_to_status(data),
            0x2003 => self.ppu.write_to_oam_addr(data),
            0x2004 => self.ppu.write_to_oam_data(data),
            0x2005 => self.ppu.write_to_scroll(data),
            0x2006 => self.ppu.write_to_ppu_addr(data),
            0x2007 => {
                if self.ppu.can_write_data() {
                    self.ppu.write_to_data(data);
                } else {
                    self.fault = true;
                }
            },
            0x4000..=0x4003 => self.apu.write_1ch(target, data),
            0x4004..=0x4007 => self.apu.write_2ch(target, data),
            0x4008 | 0x400A | 0x400B => self.apu.write_3ch(target, data),
            0x400C | 0x400E | 0x400F => self.apu.write_4ch(target, data),
            0x4010..=0x4013 => self.apu.write_dmc(target, data),
            0x4014 => self.oam_dma(data),
            0x4015 => self.apu.write_status(data),
            0x4016 => self.joypad1.write(data),
            0x4017 => self.apu.write_frame_counter(data),
            0x6000..=0x7FFF => {
                if self.mapper.can_access_prg_ram(target) {
                    self.mapper.write_prg_ram(target, data);
                    self.prg_ram_written = true;
                } else {
                    self.fault = true;
                }
            },
            0x8000..=0xFFFF => {
                self.mapper.write(target, data);
            },
            _ => {},
        }
    }
}

impl Mem for Bus {
    open spec fn mem_wf(&self) -> bool {
        self@.wf()
    }

    fn mem_read(&mut self, addr: u16) -> (data: u8)
        ensures
            final(self)@ == old(self)@.mem_read(addr).0,
            data == old(self)@.mem_read(addr).1,
    {
        self.read(addr)
    }

    fn mem_write(&mut self, addr: u16, data: u8)
        ensures
            final(self)@ == old(self)@.mem_write(addr, data, final(self)@.mapper),
            old(self)@.write_leaves(addr, data, final(self)@.mapper),
            BusView::mapper_follows(old(self)@.mapper, final(self)@.mapper),
    {
        self.write(addr, data)
    }
}

} // verus!
