//! The delta-modulation channel: its registers, its events and its
//! synthesizer, which fetches sample bytes from the cartridge by itself.
use vstd::prelude::*;
use crate::apu::events::ChannelEvent;
use crate::apu::units::{dmc_period, dmc_table, phase_increment, spec_phase_increment, PHASE_ONE};
use crate::mapper::{covers_prg_rom, Mapper, PRG_ROM_BASE};

verus! {

/// The first of the channel's four registers.
pub const DMC_BASE: u16 = 0x4010;

/// The highest output level that a sample bit can lead to.
pub const DMC_MAX_LEVEL: u8 = 126;

/// The output level that stands for a signal of 0.
pub const DMC_MID_LEVEL: i8 = 64;

/// The decoded fields of the channel's registers.
#[derive(Debug, Clone, Copy, PartialEq, Eq, Structural)]
pub struct DMCRegister {
    pub irq_enable: bool,
    pub loop_flag: bool,
    pub frequency_index: u8,
    pub delta_counter: u8,
    pub sample_start_addr: u8,
    pub sample_byte_count: u8,
}

impl DMCRegister {
    pub open spec fn spec_new() -> Self {
        DMCRegister {
            irq_enable: false,
            loop_flag: false,
            frequency_index: 0,
            delta_counter: 0,
            sample_start_addr: 0,
            sample_byte_count: 0,
        }
    }

    pub fn new() -> (register: Self)
        ensures
            register == Self::spec_new(),
            register.wf(),
    {
        DMCRegister {
            irq_enable: false,
            loop_flag: false,
            frequency_index: 0,
            delta_counter: 0,
            sample_start_addr: 0,
            sample_byte_count: 0,
        }
    }

    pub open spec fn wf(&self) -> bool {
        self.frequency_index < 16 && self.delta_counter <= 127
    }

    /// The fields after a write: $4010 holds the interrupt enable in bit 7,
    /// the loop flag in bit 6 and the rate index in the low nibble; $4011
    /// the 7-bit output level; $4012 the sample's start; $4013 its length.
    pub open spec fn spec_write(self, addr: u16, value: u8) -> Self {
        if addr == 0x4010 {
            DMCRegister {
                irq_enable: value & 0x80 != 0,
                loop_flag: value & 0x40 != 0,
                frequency_index: value & 0x0F,
                ..self
            }
        } else if addr == 0x4011 {
            DMCRegister { delta_counter: value & 0x7F, ..self }
        } else if addr == 0x4012 {
            DMCRegister { sample_start_addr: value, ..self }
        } else {
            DMCRegister { sample_byte_count: value, ..self }
        }
    }

    pub fn write(&mut self, addr: u16, value: u8)
        requires
            DMC_BASE <= addr <= DMC_BASE + 3,
            old(self).wf(),
        ensures
            *final(self) == old(self).spec_write(addr, value),
            final(self).wf(),
    {
        proof {
            lemma_dmc_fields(value);
        }
        match addr {
            0x4010 => {
                self.irq_enable = value & 0x80 != 0;
                self.loop_flag = value & 0x40 != 0;
                self.frequency_index = value & 0x0F;
            },
            0x4011 => self.delta_counter = value & 0x7F,
            0x4012 => self.sample_start_addr = value,
            _ => self.sample_byte_count = value,
        }
    }
}

/// The ranges of the fields that the masks cut out of a register value.
pub proof fn lemma_dmc_fields(value: u8)
    by (bit_vector)
    ensures
        value & 0x0F <= 15,
        value & 0x7F <= 127,
        value >> 1 <= 127,
        value & 0x01 <= 1,
{
}

/// What the emulation side sends to the delta-modulation channel.
#[derive(Debug, Clone, Copy, PartialEq, Eq, Structural)]
pub enum DMCEvent {
    IrqEnable(bool),
    Loop(bool),
    Frequency(u8),
    Delta(u8),
    SampleStartAddr(u8),
    SampleByteCount(u8),
    Enable(bool),
    Reset(),
}

impl DMCEvent {
    /// Tests whether the values that the event carries are in their
    /// registers' ranges.
    pub fn check(&self) -> (ok: bool)
        ensures
            ok == self.wf(),
    {
        match self {
            DMCEvent::Frequency(index) => *index < 16,
            DMCEvent::Delta(level) => *level <= 127,
            _ => true,
        }
    }

    /// True when the values that the event carries are in their registers'
    /// ranges.
    pub open spec fn wf(&self) -> bool {
        match *self {
            DMCEvent::Frequency(index) => index < 16,
            DMCEvent::Delta(level) => level <= 127,
            _ => true,
        }
    }

    /// True for an event that sets a parameter, false for a reset.
    pub open spec fn is_parameter(&self) -> bool {
        !(*self is Reset)
    }
}

/// The address at which a sample begins: the start register counts blocks
/// of 64 bytes from $C000.
pub open spec fn sample_start(register: u8) -> u16 {
    (0xC000 + register * 0x40) as u16
}

/// The length of a sample in bytes: the length register counts blocks of
/// 16 bytes, and one byte more is played.
pub open spec fn sample_length(register: u8) -> u32 {
    (register * 0x10 + 1) as u32
}

/// The address that follows an address of the sample: the next one, and
/// $8000 after $FFFF.
pub open spec fn next_sample_address(addr: u16) -> u16 {
    if addr == 0xFFFF {
        0x8000
    } else {
        (addr + 1) as u16
    }
}

/// The output level after one sample bit: a 1 raises it by 2 up to the
/// highest level, a 0 lowers it by 2 down to 0.
pub open spec fn level_after_bit(level: u8, bit: bool) -> u8 {
    if bit {
        if level <= DMC_MAX_LEVEL - 2 {
            (level + 2) as u8
        } else {
            DMC_MAX_LEVEL
        }
    } else {
        if level >= 2 {
            (level - 2) as u8
        } else {
            0
        }
    }
}

/// The output level after a run of sample bits.
pub open spec fn level_after_bits(level: u8, bits: Seq<bool>) -> u8
    decreases bits.len(),
{
    if bits.len() == 0 {
        level
    } else {
        level_after_bit(level_after_bits(level, bits.drop_last()), bits.last())
    }
}

/// Whatever bits a sample holds, the output level stays between 0 and 126
/// once it is there, and the first bit brings it there from 127.
pub proof fn lemma_level_stays_in_range(level: u8, bits: Seq<bool>)
    requires
        level <= 127,
    ensures
        level_after_bits(level, bits) <= 127,
        level <= DMC_MAX_LEVEL || bits.len() >= 1 ==> level_after_bits(level, bits)
            <= DMC_MAX_LEVEL,
    decreases bits.len(),
{
    if bits.len() > 0 {
        lemma_level_stays_in_range(level, bits.drop_last());
    }
}

/// The sample address never leaves the cartridge's range: after $FFFF it is
/// $8000, not 0.
pub proof fn lemma_sample_address_wraps(addr: u16)
    requires
        addr >= PRG_ROM_BASE,
    ensures
        next_sample_address(addr) >= PRG_ROM_BASE,
        next_sample_address(0xFFFF) == 0x8000,
        addr < 0xFFFF ==> next_sample_address(addr) == addr + 1,
{
}

/// The delta-modulation channel on the audio side.
#[derive(Debug, Clone, Copy, PartialEq, Eq, Structural)]
pub struct DMCWave {
    /// Output samples per second.
    pub freq: u32,
    /// Position in the current bit period, as a 32-bit binary fraction.
    pub phase: u32,
    pub enabled_sound: bool,
    pub irq_enable: bool,
    pub loop_flag: bool,
    pub rate_index: u8,
    /// The 7-bit delta accumulator.
    pub output_level: u8,
    /// The start register, from which a restart takes the address.
    pub sample_start_addr: u8,
    /// The length register, from which a restart takes the length.
    pub sample_byte_count: u8,
    /// The bits of the current sample byte that are still to play, lowest
    /// first.
    pub bit_buffer: u8,
    pub bits_remaining: u8,
    /// The address of the next sample byte.
    pub sample_address: u16,
    /// The sample bytes that are still to fetch.
    pub bytes_remaining: u32,
}

impl DMCWave {
    pub open spec fn wf(&self) -> bool {
        &&& self.freq > 0
        &&& self.rate_index < 16
        &&& self.output_level <= 127
        &&& self.bits_remaining <= 8
        &&& self.sample_address >= PRG_ROM_BASE
        &&& self.bytes_remaining <= 0xFF1
    }

    pub open spec fn spec_new(freq: u32) -> Self {
        DMCWave {
            freq,
            phase: 0,
            enabled_sound: true,
            irq_enable: false,
            loop_flag: false,
            rate_index: 0,
            output_level: 0,
            sample_start_addr: 0,
            sample_byte_count: 0,
            bit_buffer: 0,
            bits_remaining: 0,
            sample_address: 0xC000,
            bytes_remaining: 0,
        }
    }

    /// An idle channel at power-on, for an output of `freq` samples a second.
    pub fn new(freq: u32) -> (wave: Self)
        requires
            freq > 0,
        ensures
            wave == Self::spec_new(freq),
            wave.wf(),
    {
        DMCWave {
            freq,
            phase: 0,
            enabled_sound: true,
            irq_enable: false,
            loop_flag: false,
            rate_index: 0,
            output_level: 0,
            sample_start_addr: 0,
            sample_byte_count: 0,
            bit_buffer: 0,
            bits_remaining: 0,
            sample_address: 0xC000,
            bytes_remaining: 0,
        }
    }

    /// The channel at the start of its sample, as the registers give it,
    /// with no bits left over.
    pub open spec fn spec_set_delta(self) -> Self {
        DMCWave {
            sample_address: sample_start(self.sample_start_addr),
            bytes_remaining: sample_length(self.sample_byte_count),
            bit_buffer: 0,
            bits_remaining: 0,
            ..self
        }
    }

    /// Starts the sample over from the registers' address and length.
    pub fn set_delta(&mut self)
        requires
            old(self).wf(),
        ensures
            *final(self) == old(self).spec_set_delta(),
            final(self).wf(),
    {
        self.sample_address = self.sample_start_addr as u16 * 0x40 + 0xC000;
        self.bytes_remaining = self.sample_byte_count as u32 * 0x10 + 1;
        self.bit_buffer = 0;
        self.bits_remaining = 0;
    }

    /// The channel after one event.
    pub open spec fn spec_handle(self, event: DMCEvent) -> Self {
        match event {
            DMCEvent::IrqEnable(b) => DMCWave { irq_enable: b, ..self },
            DMCEvent::Loop(b) => DMCWave { loop_flag: b, ..self },
            DMCEvent::Frequency(index) => DMCWave { rate_index: index, ..self },
            DMCEvent::Delta(level) => DMCWave { output_level: level, ..self },
            DMCEvent::SampleStartAddr(start) => DMCWave {
                sample_start_addr: start,
                sample_address: sample_start(start),
                ..self
            },
            DMCEvent::SampleByteCount(count) => DMCWave {
                sample_byte_count: count,
                bytes_remaining: sample_length(count),
                ..self
            },
            DMCEvent::Enable(b) => DMCWave { enabled_sound: b, ..self },
            DMCEvent::Reset() => DMCWave { phase: 0, ..self.spec_set_delta() },
        }
    }

    /// Applies one event from the emulation side. A write of the output
    /// level touches neither the sample's address nor its length.
    pub fn handle(&mut self, event: DMCEvent)
        requires
            old(self).wf(),
            event.wf(),
        ensures
            final(self).wf(),
            *final(self) == old(self).spec_handle(event),
    {
        match event {
            DMCEvent::IrqEnable(b) => self.irq_enable = b,
            DMCEvent::Loop(b) => self.loop_flag = b,
            DMCEvent::Frequency(index) => self.rate_index = index,
            DMCEvent::Delta(level) => self.output_level = level,
            DMCEvent::SampleStartAddr(start) => {
                self.sample_start_addr = start;
                self.sample_address = start as u16 * 0x40 + 0xC000;
            },
            DMCEvent::SampleByteCount(count) => {
                self.sample_byte_count = count;
                self.bytes_remaining = count as u32 * 0x10 + 1;
            },
            DMCEvent::Enable(b) => self.enabled_sound = b,
            DMCEvent::Reset() => {
                self.set_delta();
                self.phase = 0;
            },
        }
    }

    /// True when the next bit period begins with the fetch of a byte: no
    /// bits are left and the sample has bytes left.
    pub open spec fn fetches(self) -> bool {
        self.bits_remaining == 0 && self.bytes_remaining > 0
    }

    /// True when the byte to fetch is the sample's last.
    pub open spec fn ends(self) -> bool {
        self.fetches() && self.bytes_remaining == 1
    }

    /// The channel after the fetch of the byte `fetched`: the byte fills the
    /// bit buffer, the address moves on, and a sample that ends starts over
    /// if it loops.
    pub open spec fn spec_fetch(self, fetched: u8) -> Self {
        let filled = DMCWave {
            bit_buffer: fetched,
            bits_remaining: 8,
            sample_address: next_sample_address(self.sample_address),
            bytes_remaining: (self.bytes_remaining - 1) as u32,
            ..self
        };
        if self.ends() && self.loop_flag {
            DMCWave {
                sample_address: sample_start(self.sample_start_addr),
                bytes_remaining: sample_length(self.sample_byte_count),
                ..filled
            }
        } else {
            filled
        }
    }

    /// The channel after it has played the lowest bit of its buffer.
    pub open spec fn spec_play_bit(self) -> Self {
        if self.bits_remaining == 0 {
            self
        } else {
            DMCWave {
                output_level: level_after_bit(self.output_level, self.bit_buffer & 0x01 != 0),
                bit_buffer: self.bit_buffer >> 1,
                bits_remaining: (self.bits_remaining - 1) as u8,
                ..self
            }
        }
    }

    /// The channel after one bit period, where the cartridge holds
    /// `fetched` at the sample address.
    pub open spec fn spec_clock_with(self, fetched: u8) -> Self {
        if self.fetches() {
            self.spec_fetch(fetched).spec_play_bit()
        } else {
            self.spec_play_bit()
        }
    }

    /// The channel after one bit period.
    pub open spec fn spec_clock<M: Mapper>(self, mapper: &M) -> Self {
        self.spec_clock_with(mapper.spec_read_prg_rom(self.sample_address))
    }

    /// What the channel sends back in one bit period: after a fetch the
    /// bytes that are left, and an interrupt request where the sample ends
    /// without looping while interrupts are enabled.
    pub open spec fn spec_clock_notices(self) -> Seq<ChannelEvent> {
        if !self.fetches() {
            Seq::empty()
        } else if self.ends() && !self.loop_flag && self.irq_enable {
            seq![ChannelEvent::LengthCounter(0), ChannelEvent::Irq()]
        } else {
            seq![ChannelEvent::LengthCounter(self.spec_fetch(0).bytes_remaining)]
        }
    }

    /// One bit period: fetches a byte if the buffer is empty and the sample
    /// has one left, then plays one bit. Notifications are added to
    /// `notices`.
    pub fn clock<M: Mapper>(&mut self, mapper: &M, notices: &mut Vec<ChannelEvent>)
        requires
            old(self).wf(),
            old(self).fetches() ==> mapper.prg_rom_mapped(old(self).sample_address),
        ensures
            final(self).wf(),
            *final(self) == old(self).spec_clock(mapper),
            final(notices)@ == old(notices)@ + old(self).spec_clock_notices(),
            old(self).fetches() || old(self).bits_remaining > 0 ==> final(self).output_level
                <= DMC_MAX_LEVEL,
            final(self).sample_address != 0,
    {
        if self.bits_remaining == 0 && self.bytes_remaining > 0 {
            self.bit_buffer = mapper.read_prg_rom(self.sample_address);
            self.bits_remaining = 8;
            if self.sample_address == 0xFFFF {
                self.sample_address = 0x8000;
            } else {
                self.sample_address += 1;
            }
            self.bytes_remaining -= 1;
            if self.bytes_remaining == 0 {
                if self.loop_flag {
                    self.sample_address = self.sample_start_addr as u16 * 0x40 + 0xC000;
                    self.bytes_remaining = self.sample_byte_count as u32 * 0x10 + 1;
                    notices.push(ChannelEvent::LengthCounter(self.bytes_remaining));
                } else {
                    notices.push(ChannelEvent::LengthCounter(0));
                    if self.irq_enable {
                        notices.push(ChannelEvent::Irq());
                    }
                }
            } else {
                notices.push(ChannelEvent::LengthCounter(self.bytes_remaining));
            }
            assert(notices@ =~= old(notices)@ + old(self).spec_clock_notices());
        } else {
            assert(notices@ =~= old(notices)@ + old(self).spec_clock_notices());
        }
        if self.bits_remaining > 0 {
            proof {
                lemma_dmc_fields(self.bit_buffer);
            }
            if self.bit_buffer & 0x01 == 0x00 {
                if self.output_level >= 2 {
                    self.output_level -= 2;
                } else {
                    self.output_level = 0;
                }
            } else {
                if self.output_level <= DMC_MAX_LEVEL - 2 {
                    self.output_level += 2;
                } else {
                    self.output_level = DMC_MAX_LEVEL;
                }
            }
            self.bit_buffer = self.bit_buffer >> 1;
            self.bits_remaining -= 1;
        }
    }

    /// The current output in sixty-fourths of full scale: the output level
    /// less 64, or 0 while the channel is disabled.
    pub open spec fn spec_sample(self) -> i8 {
        if !self.enabled_sound {
            0
        } else {
            (self.output_level - DMC_MID_LEVEL) as i8
        }
    }

    pub fn sample(&self) -> (level: i8)
        requires
            self.wf(),
        ensures
            level == self.spec_sample(),
            -64 <= level <= 63,
    {
        if !self.enabled_sound {
            return 0;
        }
        self.output_level as i8 - DMC_MID_LEVEL
    }

    /// The fraction of a bit period that passes in one output sample.
    pub open spec fn spec_step(self) -> int {
        spec_phase_increment(dmc_table()[self.rate_index as int] as u32, self.freq)
    }

    /// How many bit periods end during the next output sample.
    pub open spec fn spec_wraps(self) -> nat {
        ((self.phase + self.spec_step()) / (PHASE_ONE as int)) as nat
    }

    /// The channel after `n` bit periods.
    pub open spec fn spec_clocks<M: Mapper>(self, mapper: &M, n: nat) -> Self
        decreases n,
    {
        if n == 0 {
            self
        } else {
            self.spec_clocks(mapper, (n - 1) as nat).spec_clock(mapper)
        }
    }

    /// What the channel sends back over `n` bit periods.
    pub open spec fn spec_clocks_notices<M: Mapper>(self, mapper: &M, n: nat) -> Seq<ChannelEvent>
        decreases n,
    {
        if n == 0 {
            Seq::empty()
        } else {
            self.spec_clocks_notices(mapper, (n - 1) as nat) + self.spec_clocks(
                mapper,
                (n - 1) as nat,
            ).spec_clock_notices()
        }
    }

    /// The channel one output sample later: the phase has moved on, and one
    /// bit period has passed for each time it wrapped.
    pub open spec fn spec_advance<M: Mapper>(self, mapper: &M) -> Self {
        DMCWave {
            phase: ((self.phase + self.spec_step()) % (PHASE_ONE as int)) as u32,
            ..self.spec_clocks(mapper, self.spec_wraps())
        }
    }

    /// What the channel sends back during the next output sample.
    pub open spec fn spec_advance_notices<M: Mapper>(self, mapper: &M) -> Seq<ChannelEvent> {
        self.spec_clocks_notices(mapper, self.spec_wraps())
    }

    /// Returns the current output sample and moves on to the next.
    /// Notifications are added to `notices`.
    pub fn next_sample<M: Mapper>(&mut self, mapper: &M, notices: &mut Vec<ChannelEvent>) -> (level:
        i8)
        requires
            old(self).wf(),
            covers_prg_rom(mapper),
        ensures
            final(self).wf(),
            level == old(self).spec_sample(),
            *final(self) == old(self).spec_advance(mapper),
            final(notices)@ == old(notices)@ + old(self).spec_advance_notices(mapper),
    {
        let level = self.sample();
        let step = phase_increment(dmc_period(self.rate_index) as u32, self.freq);
        let total: u64 = self.phase as u64 + step;
        let wraps: u64 = total / PHASE_ONE;
        let ghost started = *self;
        let mut k: u64 = 0;
        assert(notices@ =~= old(notices)@ + started.spec_clocks_notices(mapper, 0));
        while k < wraps
            invariant
                0 <= k <= wraps,
                self.wf(),
                covers_prg_rom(mapper),
                *self == started.spec_clocks(mapper, k as nat),
                notices@ == old(notices)@ + started.spec_clocks_notices(mapper, k as nat),
            decreases wraps - k,
        {
            self.clock(mapper, notices);
            k += 1;
            assert(notices@ =~= old(notices)@ + started.spec_clocks_notices(mapper, k as nat));
        }
        self.phase = (total % PHASE_ONE) as u32;
        level
    }

    /// The channel after a run of events, applied in order.
    pub open spec fn spec_handle_all(self, events: Seq<DMCEvent>) -> Self
        decreases events.len(),
    {
        if events.len() == 0 {
            self
        } else {
            self.spec_handle_all(events.drop_last()).spec_handle(events.last())
        }
    }

    /// The channel `n` output samples later.
    pub open spec fn spec_advance_n<M: Mapper>(self, mapper: &M, n: nat) -> Self
        decreases n,
    {
        if n == 0 {
            self
        } else {
            self.spec_advance_n(mapper, (n - 1) as nat).spec_advance(mapper)
        }
    }

    /// The next `n` output samples.
    pub open spec fn spec_render<M: Mapper>(self, mapper: &M, n: nat) -> Seq<i8>
        decreases n,
    {
        if n == 0 {
            Seq::empty()
        } else {
            self.spec_render(mapper, (n - 1) as nat).push(
                self.spec_advance_n(mapper, (n - 1) as nat).spec_sample(),
            )
        }
    }

    /// What the channel sends back over the next `n` output samples.
    pub open spec fn spec_render_notices<M: Mapper>(self, mapper: &M, n: nat) -> Seq<ChannelEvent>
        decreases n,
    {
        if n == 0 {
            Seq::empty()
        } else {
            self.spec_render_notices(mapper, (n - 1) as nat) + self.spec_advance_n(
                mapper,
                (n - 1) as nat,
            ).spec_advance_notices(mapper)
        }
    }

    /// One call of the audio device: applies the pending events in their
    /// order of arrival, then renders `samples` output samples, fetching
    /// sample bytes from the cartridge as they are needed. Returns the
    /// samples and the notifications for the emulation side.
    pub fn callback<M: Mapper>(&mut self, mapper: &M, events: &Vec<DMCEvent>, samples: usize) -> (result:
        (Vec<i8>, Vec<ChannelEvent>))
        requires
            old(self).wf(),
            covers_prg_rom(mapper),
            forall|i: int| 0 <= i < events@.len() ==> (#[trigger] events@[i]).wf(),
        ensures
            final(self).wf(),
            *final(self) == old(self).spec_handle_all(events@).spec_advance_n(
                mapper,
                samples as nat,
            ),
            result.0@ == old(self).spec_handle_all(events@).spec_render(mapper, samples as nat),
            result.1@ == old(self).spec_handle_all(events@).spec_render_notices(
                mapper,
                samples as nat,
            ),
    {
        let mut i: usize = 0;
        while i < events.len()
            invariant
                0 <= i <= events@.len(),
                self.wf(),
                forall|k: int| 0 <= k < events@.len() ==> (#[trigger] events@[k]).wf(),
                *self == old(self).spec_handle_all(events@.take(i as int)),
            decreases events@.len() - i,
        {
            proof {
                assert(events@.take(i + 1).drop_last() =~= events@.take(i as int));
            }
            self.handle(events[i]);
            i += 1;
        }
        proof {
            assert(events@.take(i as int) =~= events@);
        }
        let ghost started = *self;
        let mut notices: Vec<ChannelEvent> = Vec::new();
        let mut out: Vec<i8> = Vec::new();
        let mut n: usize = 0;
        while n < samples
            invariant
                0 <= n <= samples,
                self.wf(),
                covers_prg_rom(mapper),
                *self == started.spec_advance_n(mapper, n as nat),
                out@ == started.spec_render(mapper, n as nat),
                notices@ == started.spec_render_notices(mapper, n as nat),
            decreases samples - n,
        {
            let level = self.next_sample(mapper, &mut notices);
            out.push(level);
            n += 1;
        }
        (out, notices)
    }
}

/// However long the channel plays and whatever the cartridge holds, the
/// output level stays within 7 bits and the sample address within the
/// cartridge's range.
pub proof fn lemma_dmc_stays_in_range<M: Mapper>(wave: DMCWave, mapper: &M, n: nat)
    requires
        wave.wf(),
    ensures
        wave.spec_clocks(mapper, n).wf(),
        wave.spec_clocks(mapper, n).sample_address >= PRG_ROM_BASE,
        wave.output_level <= DMC_MAX_LEVEL ==> wave.spec_clocks(mapper, n).output_level
            <= DMC_MAX_LEVEL,
    decreases n,
{
    if n > 0 {
        lemma_dmc_stays_in_range(wave, mapper, (n - 1) as nat);
        let before = wave.spec_clocks(mapper, (n - 1) as nat);
        lemma_dmc_fields(before.bit_buffer);
        lemma_dmc_fields(mapper.spec_read_prg_rom(before.sample_address));
    }
}

/// Setting a parameter twice in a row leaves the channel as setting it
/// once does, and so gives the same output sample.
pub proof fn lemma_dmc_parameter_idempotent(wave: DMCWave, event: DMCEvent)
    requires
        event.is_parameter(),
    ensures
        wave.spec_handle(event).spec_handle(event) == wave.spec_handle(event),
        wave.spec_handle(event).spec_handle(event).spec_sample() == wave.spec_handle(
            event,
        ).spec_sample(),
{
}

} // verus!
