//! The audio processing unit: register decoding, frame sequencing and the
//! status register on the emulation side, and the channel synthesizers on
//! the audio side. The two sides talk through queues of events only.
use vstd::prelude::*;
use crate::apu::dmc::{DMCEvent, DMCRegister, DMC_BASE};
use crate::apu::events::{
    ChannelEvent,
    NoiseEvent,
    NoiseKind,
    NoiseNote,
    SquareEvent,
    SquareNote,
    TriangleEvent,
    TriangleNote,
};
use crate::apu::units::{
    length_table,
    EnvelopeData,
    LengthCounterData,
    LinearCounterData,
    SweepData,
    FRAME_INTERVAL,
};

pub mod dmc;
pub mod events;
pub mod noise;
pub mod square;
pub mod triangle;
pub mod units;

verus! {

/// The first register of pulse channel 1.
pub const CH1_BASE: u16 = 0x4000;

/// The first register of pulse channel 2.
pub const CH2_BASE: u16 = 0x4004;

/// The ranges of the fields that the masks and shifts cut out of a
/// register value.
pub proof fn lemma_register_fields(value: u8)
    by (bit_vector)
    ensures
        value & 0x0F <= 15,
        (value & 0xC0) >> 6 <= 3,
        value & 0x07 <= 7,
        (value & 0x08) >> 3 <= 1,
        (value & 0x70) >> 4 <= 7,
        (value & 0xF8) >> 3 <= 31,
        value & 0x7F <= 127,
{
}

/// The decoded fields of pulse channel 1's registers, $4000 to $4003.
#[derive(Debug, Clone, Copy, PartialEq, Eq, Structural)]
pub struct Ch1Register {
    pub volume: u8,
    /// True when bit 4 of the first register is clear: the envelope decays.
    pub envelope_flag: bool,
    /// True when bit 5 of the first register is clear: the length counter
    /// counts and the envelope does not loop.
    pub key_off_counter_flag: bool,
    pub duty: u8,
    pub sweep_change_amount: u8,
    pub sweep_change_direction: u8,
    pub sweep_timer_count: u8,
    pub sweep_enable_flag: bool,
    /// The 11-bit timer period.
    pub frequency: u16,
    /// The 5-bit length-counter load index.
    pub key_off_count: u8,
}

impl Ch1Register {
    pub open spec fn wf(&self) -> bool {
        &&& self.volume <= 15
        &&& self.duty <= 3
        &&& self.sweep_change_amount <= 7
        &&& self.sweep_timer_count <= 7
        &&& self.key_off_count < 32
    }

    pub open spec fn spec_new() -> Self {
        Ch1Register {
            volume: 0,
            envelope_flag: false,
            key_off_counter_flag: false,
            duty: 0,
            sweep_change_amount: 0,
            sweep_change_direction: 0,
            sweep_timer_count: 0,
            sweep_enable_flag: false,
            frequency: 0,
            key_off_count: 0,
        }
    }

    pub fn new() -> (register: Self)
        ensures
            register == Self::spec_new(),
            register.wf(),
    {
        Ch1Register {
            volume: 0,
            envelope_flag: false,
            key_off_counter_flag: false,
            duty: 0,
            sweep_change_amount: 0,
            sweep_change_direction: 0,
            sweep_timer_count: 0,
            sweep_enable_flag: false,
            frequency: 0,
            key_off_count: 0,
        }
    }

    /// The fields after a write of `value` to the register at `addr`.
    pub open spec fn spec_write(self, addr: u16, value: u8) -> Self {
        if addr == CH1_BASE {
            Ch1Register {
                volume: value & 0x0F,
                envelope_flag: (value & 0x10) == 0,
                key_off_counter_flag: (value & 0x20) == 0,
                duty: (value & 0xC0) >> 6,
                ..self
            }
        } else if addr == CH1_BASE + 1 {
            Ch1Register {
                sweep_change_amount: value & 0x07,
                sweep_change_direction: (value & 0x08) >> 3,
                sweep_timer_count: (value & 0x70) >> 4,
                sweep_enable_flag: (value & 0x80) != 0,
                ..self
            }
        } else if addr == CH1_BASE + 2 {
            Ch1Register { frequency: (self.frequency & 0x0700) | value as u16, ..self }
        } else {
            Ch1Register {
                frequency: (self.frequency & 0x00FF) | ((value as u16 & 0x07) << 8),
                key_off_count: (value & 0xF8) >> 3,
                ..self
            }
        }
    }

    pub fn write(&mut self, addr: u16, value: u8)
        requires
            CH1_BASE <= addr <= CH1_BASE + 3,
            old(self).wf(),
        ensures
            *final(self) == old(self).spec_write(addr, value),
            final(self).wf(),
    {
        proof {
            lemma_register_fields(value);
        }
        match addr {
            0x4000 => {
                self.volume = value & 0x0F;
                self.envelope_flag = (value & 0x10) == 0;
                self.key_off_counter_flag = (value & 0x20) == 0;
                self.duty = (value & 0xC0) >> 6;
            },
            0x4001 => {
                self.sweep_change_amount = value & 0x07;
                self.sweep_change_direction = (value & 0x08) >> 3;
                self.sweep_timer_count = (value & 0x70) >> 4;
                self.sweep_enable_flag = (value & 0x80) != 0;
            },
            0x4002 => {
                self.frequency = (self.frequency & 0x0700) | value as u16;
            },
            _ => {
                self.frequency = (self.frequency & 0x00FF) | (value as u16 & 0x07) << 8;
                self.key_off_count = (value & 0xF8) >> 3;
            },
        }
    }

    /// The events that a write to the register at `addr` sends to the
    /// channel, once the fields hold the written value: the first register
    /// sends duty, envelope and length counter; the second the sweep; the
    /// third the period; the fourth the length counter, the period and a
    /// reset.
    pub open spec fn spec_events(self, addr: u16) -> Seq<SquareEvent> {
        if addr == CH1_BASE {
            seq![
                SquareEvent::Note(SquareNote { duty: self.duty }),
                SquareEvent::Envelope(self.envelope_data()),
                SquareEvent::LengthCounter(self.length_counter_data()),
            ]
        } else if addr == CH1_BASE + 1 {
            seq![SquareEvent::Sweep(self.sweep_data())]
        } else if addr == CH1_BASE + 2 {
            seq![SquareEvent::ChangeFrequency(self.frequency)]
        } else {
            seq![
                SquareEvent::LengthCounter(self.length_counter_data()),
                SquareEvent::ChangeFrequency(self.frequency),
                SquareEvent::Reset(),
            ]
        }
    }

    /// The envelope parameters that the fields stand for. The envelope
    /// loops when the length counter is halted.
    pub open spec fn envelope_data(self) -> EnvelopeData {
        EnvelopeData {
            rate: self.volume,
            enabled_sound: self.envelope_flag,
            loop_flag: !self.key_off_counter_flag,
        }
    }

    /// The length-counter parameters that the fields stand for.
    pub open spec fn length_counter_data(self) -> LengthCounterData {
        LengthCounterData {
            enabled: self.key_off_counter_flag,
            counter_for_reset: length_table()[self.key_off_count as int],
        }
    }

    /// The sweep parameters that the fields stand for.
    pub open spec fn sweep_data(self) -> SweepData {
        SweepData {
            change_amount: self.sweep_change_amount,
            change_direction: self.sweep_change_direction,
            timer_count: self.sweep_timer_count,
            enabled: self.sweep_enable_flag,
        }
    }

    /// Adds the events of a write to the register at `addr` to a queue.
    pub fn send_events(&self, addr: u16, queue: &mut Vec<SquareEvent>)
        requires
            CH1_BASE <= addr <= CH1_BASE + 3,
            self.wf(),
        ensures
            final(queue)@ == old(queue)@ + self.spec_events(addr),
            forall|i: int|
                0 <= i < self.spec_events(addr).len() ==> (#[trigger] self.spec_events(
                    addr,
                )[i]).wf(),
    {
        if addr == CH1_BASE {
            queue.push(SquareEvent::Note(SquareNote { duty: self.duty }));
            queue.push(
                SquareEvent::Envelope(
                    EnvelopeData::new(self.volume, self.envelope_flag, !self.key_off_counter_flag),
                ),
            );
        }
        if addr == CH1_BASE || addr == CH1_BASE + 3 {
            queue.push(
                SquareEvent::LengthCounter(
                    LengthCounterData::new(self.key_off_count, self.key_off_counter_flag),
                ),
            );
        }
        if addr == CH1_BASE + 1 {
            queue.push(
                SquareEvent::Sweep(
                    SweepData::new(
                        self.sweep_change_amount,
                        self.sweep_change_direction,
                        self.sweep_timer_count,
                        self.sweep_enable_flag,
                    ),
                ),
            );
        }
        if addr == CH1_BASE + 2 || addr == CH1_BASE + 3 {
            queue.push(SquareEvent::ChangeFrequency(self.frequency));
        }
        if addr == CH1_BASE + 3 {
            queue.push(SquareEvent::Reset());
        }
        assert(queue@ =~= old(queue)@ + self.spec_events(addr));
    }
}

/// The decoded fields of pulse channel 2's registers, $4004 to $4007.
#[derive(Debug, Clone, Copy, PartialEq, Eq, Structural)]
pub struct Ch2Register {
    pub volume: u8,
    /// True when bit 4 of the first register is clear: the envelope decays.
    pub envelope_flag: bool,
    /// True when bit 5 of the first register is clear: the length counter
    /// counts and the envelope does not loop.
    pub key_off_counter_flag: bool,
    pub duty: u8,
    pub sweep_change_amount: u8,
    pub sweep_change_direction: u8,
    pub sweep_timer_count: u8,
    pub sweep_enable_flag: bool,
    /// The 11-bit timer period.
    pub frequency: u16,
    /// The 5-bit length-counter load index.
    pub key_off_count: u8,
}

impl Ch2Register {
    pub open spec fn wf(&self) -> bool {
        &&& self.volume <= 15
        &&& self.duty <= 3
        &&& self.sweep_change_amount <= 7
        &&& self.sweep_timer_count <= 7
        &&& self.key_off_count < 32
    }

    pub open spec fn spec_new() -> Self {
        Ch2Register {
            volume: 0,
            envelope_flag: false,
            key_off_counter_flag: false,
            duty: 0,
            sweep_change_amount: 0,
            sweep_change_direction: 0,
            sweep_timer_count: 0,
            sweep_enable_flag: false,
            frequency: 0,
            key_off_count: 0,
        }
    }

    pub fn new() -> (register: Self)
        ensures
            register == Self::spec_new(),
            register.wf(),
    {
        Ch2Register {
            volume: 0,
            envelope_flag: false,
            key_off_counter_flag: false,
            duty: 0,
            sweep_change_amount: 0,
            sweep_change_direction: 0,
            sweep_timer_count: 0,
            sweep_enable_flag: false,
            frequency: 0,
            key_off_count: 0,
        }
    }

    /// The fields after a write of `value` to the register at `addr`.
    pub open spec fn spec_write(self, addr: u16, value: u8) -> Self {
        if addr == CH2_BASE {
            Ch2Register {
                volume: value & 0x0F,
                envelope_flag: (value & 0x10) == 0,
                key_off_counter_flag: (value & 0x20) == 0,
                duty: (value & 0xC0) >> 6,
                ..self
            }
        } else if addr == CH2_BASE + 1 {
            Ch2Register {
                sweep_change_amount: value & 0x07,
                sweep_change_direction: (value & 0x08) >> 3,
                sweep_timer_count: (value & 0x70) >> 4,
                sweep_enable_flag: (value & 0x80) != 0,
                ..self
            }
        } else if addr == CH2_BASE + 2 {
            Ch2Register { frequency: (self.frequency & 0x0700) | value as u16, ..self }
        } else {
            Ch2Register {
                frequency: (self.frequency & 0x00FF) | ((value as u16 & 0x07) << 8),
                key_off_count: (value & 0xF8) >> 3,
                ..self
            }
        }
    }

    pub fn write(&mut self, addr: u16, value: u8)
        requires
            CH2_BASE <= addr <= CH2_BASE + 3,
            old(self).wf(),
        ensures
            *final(self) == old(self).spec_write(addr, value),
            final(self).wf(),
    {
        proof {
            lemma_register_fields(value);
        }
        match addr {
            0x4004 => {
                self.volume = value & 0x0F;
                self.envelope_flag = (value & 0x10) == 0;
                self.key_off_counter_flag = (value & 0x20) == 0;
                self.duty = (value & 0xC0) >> 6;
            },
            0x4005 => {
                self.sweep_change_amount = value & 0x07;
                self.sweep_change_direction = (value & 0x08) >> 3;
                self.sweep_timer_count = (value & 0x70) >> 4;
                self.sweep_enable_flag = (value & 0x80) != 0;
            },
            0x4006 => {
                self.frequency = (self.frequency & 0x0700) | value as u16;
            },
            _ => {
                self.frequency = (self.frequency & 0x00FF) | (value as u16 & 0x07) << 8;
                self.key_off_count = (value & 0xF8) >> 3;
            },
        }
    }

    /// The events that a write to the register at `addr` sends to the
    /// channel, once the fields hold the written value: the first register
    /// sends duty, envelope and length counter; the second the sweep; the
    /// third the period; the fourth the length counter, the period and a
    /// reset.
    pub open spec fn spec_events(self, addr: u16) -> Seq<SquareEvent> {
        if addr == CH2_BASE {
            seq![
                SquareEvent::Note(SquareNote { duty: self.duty }),
                SquareEvent::Envelope(self.envelope_data()),
                SquareEvent::LengthCounter(self.length_counter_data()),
            ]
        } else if addr == CH2_BASE + 1 {
            seq![SquareEvent::Sweep(self.sweep_data())]
        } else if addr == CH2_BASE + 2 {
            seq![SquareEvent::ChangeFrequency(self.frequency)]
        } else {
            seq![
                SquareEvent::LengthCounter(self.length_counter_data()),
                SquareEvent::ChangeFrequency(self.frequency),
                SquareEvent::Reset(),
            ]
        }
    }

    /// The envelope parameters that the fields stand for. The envelope
    /// loops when the length counter is halted.
    pub open spec fn envelope_data(self) -> EnvelopeData {
        EnvelopeData {
            rate: self.volume,
            enabled_sound: self.envelope_flag,
            loop_flag: !self.key_off_counter_flag,
        }
    }

    /// The length-counter parameters that the fields stand for.
    pub open spec fn length_counter_data(self) -> LengthCounterData {
        LengthCounterData {
            enabled: self.key_off_counter_flag,
            counter_for_reset: length_table()[self.key_off_count as int],
        }
    }

    /// The sweep parameters that the fields stand for.
    pub open spec fn sweep_data(self) -> SweepData {
        SweepData {
            change_amount: self.sweep_change_amount,
            change_direction: self.sweep_change_direction,
            timer_count: self.sweep_timer_count,
            enabled: self.sweep_enable_flag,
        }
    }

    /// Adds the events of a write to the register at `addr` to a queue.
    pub fn send_events(&self, addr: u16, queue: &mut Vec<SquareEvent>)
        requires
            CH2_BASE <= addr <= CH2_BASE + 3,
            self.wf(),
        ensures
            final(queue)@ == old(queue)@ + self.spec_events(addr),
            forall|i: int|
                0 <= i < self.spec_events(addr).len() ==> (#[trigger] self.spec_events(
                    addr,
                )[i]).wf(),
    {
        if addr == CH2_BASE {
            queue.push(SquareEvent::Note(SquareNote { duty: self.duty }));
            queue.push(
                SquareEvent::Envelope(
                    EnvelopeData::new(self.volume, self.envelope_flag, !self.key_off_counter_flag),
                ),
            );
        }
        if addr == CH2_BASE || addr == CH2_BASE + 3 {
            queue.push(
                SquareEvent::LengthCounter(
                    LengthCounterData::new(self.key_off_count, self.key_off_counter_flag),
                ),
            );
        }
        if addr == CH2_BASE + 1 {
            queue.push(
                SquareEvent::Sweep(
                    SweepData::new(
                        self.sweep_change_amount,
                        self.sweep_change_direction,
                        self.sweep_timer_count,
                        self.sweep_enable_flag,
                    ),
                ),
            );
        }
        if addr == CH2_BASE + 2 || addr == CH2_BASE + 3 {
            queue.push(SquareEvent::ChangeFrequency(self.frequency));
        }
        if addr == CH2_BASE + 3 {
            queue.push(SquareEvent::Reset());
        }
        assert(queue@ =~= old(queue)@ + self.spec_events(addr));
    }
}

/// The first register of the triangle channel.
pub const CH3_BASE: u16 = 0x4008;

/// The first register of the noise channel.
pub const CH4_BASE: u16 = 0x400C;

/// The decoded fields of the triangle channel's registers, $4008 to $400B.
#[derive(Debug, Clone, Copy, PartialEq, Eq, Structural)]
pub struct Ch3Register {
    /// The 7-bit linear-counter reload value.
    pub length: u8,
    /// True when bit 7 of the first register is clear: both counters count.
    pub key_off_counter_flag: bool,
    /// The 11-bit timer period.
    pub frequency: u16,
    /// The 5-bit length-counter load index.
    pub key_off_count: u8,
}

impl Ch3Register {
    pub open spec fn wf(&self) -> bool {
        self.length <= 127 && self.key_off_count < 32
    }

    pub open spec fn spec_new() -> Self {
        Ch3Register { length: 0, key_off_counter_flag: false, frequency: 0, key_off_count: 0 }
    }

    pub fn new() -> (register: Self)
        ensures
            register == Self::spec_new(),
            register.wf(),
    {
        Ch3Register { length: 0, key_off_counter_flag: false, frequency: 0, key_off_count: 0 }
    }

    /// The fields after a write of `value` to the register at `addr`. The
    /// second register, $4009, holds nothing.
    pub open spec fn spec_write(self, addr: u16, value: u8) -> Self {
        if addr == CH3_BASE {
            Ch3Register {
                length: value & 0x7F,
                key_off_counter_flag: (value & 0x80) == 0,
                ..self
            }
        } else if addr == CH3_BASE + 1 {
            self
        } else if addr == CH3_BASE + 2 {
            Ch3Register { frequency: (self.frequency & 0x0700) | value as u16, ..self }
        } else {
            Ch3Register {
                frequency: (self.frequency & 0x00FF) | ((value as u16 & 0x07) << 8),
                key_off_count: (value & 0xF8) >> 3,
                ..self
            }
        }
    }

    pub fn write(&mut self, addr: u16, value: u8)
        requires
            CH3_BASE <= addr <= CH3_BASE + 3,
            old(self).wf(),
        ensures
            *final(self) == old(self).spec_write(addr, value),
            final(self).wf(),
    {
        proof {
            lemma_register_fields(value);
        }
        match addr {
            0x4008 => {
                self.length = value & 0x7F;
                self.key_off_counter_flag = (value & 0x80) == 0;
            },
            0x4009 => {},
            0x400A => {
                self.frequency = (self.frequency & 0x0700) | value as u16;
            },
            _ => {
                self.frequency = (self.frequency & 0x00FF) | (value as u16 & 0x07) << 8;
                self.key_off_count = (value & 0xF8) >> 3;
            },
        }
    }

    /// The linear-counter parameters that the fields stand for.
    pub open spec fn linear_counter_data(self) -> LinearCounterData {
        LinearCounterData { counter_for_reset: self.length, enabled: self.key_off_counter_flag }
    }

    /// The length-counter parameters that the fields stand for.
    pub open spec fn length_counter_data(self) -> LengthCounterData {
        LengthCounterData {
            enabled: self.key_off_counter_flag,
            counter_for_reset: length_table()[self.key_off_count as int],
        }
    }

    /// The events that a write to the register at `addr` sends to the
    /// channel: the first register sends both counters; the third the
    /// period; the fourth the length counter, the period and a reset.
    pub open spec fn spec_events(self, addr: u16) -> Seq<TriangleEvent> {
        if addr == CH3_BASE {
            seq![
                TriangleEvent::LinearCounter(self.linear_counter_data()),
                TriangleEvent::LengthCounter(self.length_counter_data()),
            ]
        } else if addr == CH3_BASE + 1 {
            Seq::empty()
        } else if addr == CH3_BASE + 2 {
            seq![TriangleEvent::Note(TriangleNote { frequency: self.frequency })]
        } else {
            seq![
                TriangleEvent::LengthCounter(self.length_counter_data()),
                TriangleEvent::Note(TriangleNote { frequency: self.frequency }),
                TriangleEvent::Reset(),
            ]
        }
    }

    /// Adds the events of a write to the register at `addr` to a queue.
    pub fn send_events(&self, addr: u16, queue: &mut Vec<TriangleEvent>)
        requires
            CH3_BASE <= addr <= CH3_BASE + 3,
            self.wf(),
        ensures
            final(queue)@ == old(queue)@ + self.spec_events(addr),
            forall|i: int|
                0 <= i < self.spec_events(addr).len() ==> (#[trigger] self.spec_events(
                    addr,
                )[i]).wf(),
    {
        if addr == CH3_BASE {
            queue.push(
                TriangleEvent::LinearCounter(
                    LinearCounterData::new(self.length, self.key_off_counter_flag),
                ),
            );
        }
        if addr == CH3_BASE || addr == CH3_BASE + 3 {
            queue.push(
                TriangleEvent::LengthCounter(
                    LengthCounterData::new(self.key_off_count, self.key_off_counter_flag),
                ),
            );
        }
        if addr == CH3_BASE + 2 || addr == CH3_BASE + 3 {
            queue.push(TriangleEvent::Note(TriangleNote { frequency: self.frequency }));
        }
        if addr == CH3_BASE + 3 {
            queue.push(TriangleEvent::Reset());
        }
        assert(queue@ =~= old(queue)@ + self.spec_events(addr));
    }
}

/// The decoded fields of the noise channel's registers, $400C, $400E and
/// $400F.
#[derive(Debug, Clone, Copy, PartialEq, Eq, Structural)]
pub struct Ch4Register {
    pub volume: u8,
    /// True when bit 4 of the first register is clear: the envelope decays.
    pub envelope_flag: bool,
    /// True when bit 5 of the first register is clear: the length counter
    /// counts and the envelope does not loop.
    pub key_off_counter_flag: bool,
    /// The 4-bit timer period index.
    pub noise_hz: u8,
    pub kind: NoiseKind,
    /// The 5-bit length-counter load index.
    pub key_off_count: u8,
}

impl Ch4Register {
    pub open spec fn wf(&self) -> bool {
        self.volume <= 15 && self.noise_hz < 16 && self.key_off_count < 32
    }

    /// True for the addresses of the channel's three registers.
    pub open spec fn is_register(addr: u16) -> bool {
        addr == CH4_BASE || addr == CH4_BASE + 2 || addr == CH4_BASE + 3
    }

    pub open spec fn spec_new() -> Self {
        Ch4Register {
            volume: 0,
            envelope_flag: false,
            key_off_counter_flag: false,
            noise_hz: 0,
            kind: NoiseKind::Long,
            key_off_count: 0,
        }
    }

    pub fn new() -> (register: Self)
        ensures
            register == Self::spec_new(),
            register.wf(),
    {
        Ch4Register {
            volume: 0,
            envelope_flag: false,
            key_off_counter_flag: false,
            noise_hz: 0,
            kind: NoiseKind::Long,
            key_off_count: 0,
        }
    }

    /// The fields after a write of `value` to the register at `addr`.
    pub open spec fn spec_write(self, addr: u16, value: u8) -> Self {
        if addr == CH4_BASE {
            Ch4Register {
                volume: value & 0x0F,
                envelope_flag: (value & 0x10) == 0,
                key_off_counter_flag: (value & 0x20) == 0,
                ..self
            }
        } else if addr == CH4_BASE + 2 {
            Ch4Register {
                noise_hz: value & 0x0F,
                kind: if value & 0x80 == 0 {
                    NoiseKind::Long
                } else {
                    NoiseKind::Short
                },
                ..self
            }
        } else {
            Ch4Register { key_off_count: (value & 0xF8) >> 3, ..self }
        }
    }

    pub fn write(&mut self, addr: u16, value: u8)
        requires
            Self::is_register(addr),
            old(self).wf(),
        ensures
            *final(self) == old(self).spec_write(addr, value),
            final(self).wf(),
    {
        proof {
            lemma_register_fields(value);
        }
        match addr {
            0x400C => {
                self.volume = value & 0x0F;
                self.envelope_flag = (value & 0x10) == 0;
                self.key_off_counter_flag = (value & 0x20) == 0;
            },
            0x400E => {
                self.noise_hz = value & 0x0F;
                self.kind = match value & 0x80 {
                    0 => NoiseKind::Long,
                    _ => NoiseKind::Short,
                };
            },
            _ => {
                self.key_off_count = (value & 0xF8) >> 3;
            },
        }
    }

    /// The envelope parameters that the fields stand for.
    pub open spec fn envelope_data(self) -> EnvelopeData {
        EnvelopeData {
            rate: self.volume,
            enabled_sound: self.envelope_flag,
            loop_flag: !self.key_off_counter_flag,
        }
    }

    /// The length-counter parameters that the fields stand for.
    pub open spec fn length_counter_data(self) -> LengthCounterData {
        LengthCounterData {
            enabled: self.key_off_counter_flag,
            counter_for_reset: length_table()[self.key_off_count as int],
        }
    }

    /// The events that a write to the register at `addr` sends to the
    /// channel: the first register sends envelope and length counter; the
    /// second the period and mode; the third the length counter and a reset.
    pub open spec fn spec_events(self, addr: u16) -> Seq<NoiseEvent> {
        if addr == CH4_BASE {
            seq![
                NoiseEvent::Envelope(self.envelope_data()),
                NoiseEvent::LengthCounter(self.length_counter_data()),
            ]
        } else if addr == CH4_BASE + 2 {
            seq![NoiseEvent::Note(NoiseNote { hz: self.noise_hz, kind: self.kind })]
        } else {
            seq![NoiseEvent::LengthCounter(self.length_counter_data()), NoiseEvent::Reset()]
        }
    }

    /// Adds the events of a write to the register at `addr` to a queue.
    pub fn send_events(&self, addr: u16, queue: &mut Vec<NoiseEvent>)
        requires
            Self::is_register(addr),
            self.wf(),
        ensures
            final(queue)@ == old(queue)@ + self.spec_events(addr),
            forall|i: int|
                0 <= i < self.spec_events(addr).len() ==> (#[trigger] self.spec_events(
                    addr,
                )[i]).wf(),
    {
        if addr == CH4_BASE {
            queue.push(
                NoiseEvent::Envelope(
                    EnvelopeData::new(self.volume, self.envelope_flag, !self.key_off_counter_flag),
                ),
            );
        }
        if addr == CH4_BASE || addr == CH4_BASE + 3 {
            queue.push(
                NoiseEvent::LengthCounter(
                    LengthCounterData::new(self.key_off_count, self.key_off_counter_flag),
                ),
            );
        }
        if addr == CH4_BASE + 2 {
            queue.push(NoiseEvent::Note(NoiseNote { hz: self.noise_hz, kind: self.kind }));
        }
        if addr == CH4_BASE + 3 {
            queue.push(NoiseEvent::Reset());
        }
        assert(queue@ =~= old(queue)@ + self.spec_events(addr));
    }
}

/// The events that a write to the delta-modulation register at `addr`
/// sends to the channel, once the fields hold the written value: the first
/// register sends interrupt enable, loop flag and rate; the second the
/// output level; the third the sample's start; the fourth its length and a
/// reset.
pub open spec fn dmc_events(register: DMCRegister, addr: u16) -> Seq<DMCEvent> {
    if addr == DMC_BASE {
        seq![
            DMCEvent::IrqEnable(register.irq_enable),
            DMCEvent::Loop(register.loop_flag),
            DMCEvent::Frequency(register.frequency_index),
        ]
    } else if addr == DMC_BASE + 1 {
        seq![DMCEvent::Delta(register.delta_counter)]
    } else if addr == DMC_BASE + 2 {
        seq![DMCEvent::SampleStartAddr(register.sample_start_addr)]
    } else {
        seq![DMCEvent::SampleByteCount(register.sample_byte_count), DMCEvent::Reset()]
    }
}

/// Adds the events of a write to the delta-modulation register at `addr`
/// to a queue.
pub fn send_dmc_events(register: &DMCRegister, addr: u16, queue: &mut Vec<DMCEvent>)
    requires
        DMC_BASE <= addr <= DMC_BASE + 3,
        register.wf(),
    ensures
        final(queue)@ == old(queue)@ + dmc_events(*register, addr),
        forall|i: int|
            0 <= i < dmc_events(*register, addr).len() ==> (#[trigger] dmc_events(
                *register,
                addr,
            )[i]).wf(),
{
    if addr == DMC_BASE {
        queue.push(DMCEvent::IrqEnable(register.irq_enable));
        queue.push(DMCEvent::Loop(register.loop_flag));
        queue.push(DMCEvent::Frequency(register.frequency_index));
    }
    if addr == DMC_BASE + 1 {
        queue.push(DMCEvent::Delta(register.delta_counter));
    }
    if addr == DMC_BASE + 2 {
        queue.push(DMCEvent::SampleStartAddr(register.sample_start_addr));
    }
    if addr == DMC_BASE + 3 {
        queue.push(DMCEvent::SampleByteCount(register.sample_byte_count));
        queue.push(DMCEvent::Reset());
    }
    assert(queue@ =~= old(queue)@ + dmc_events(*register, addr));
}

/// The frame counter register, $4017.
#[derive(Debug, Clone, Copy, PartialEq, Eq, Structural)]
pub struct FrameCounter {
    pub bits: u8,
}

impl FrameCounter {
    /// Bit 6: the sequencer raises no frame interrupt.
    pub const DISABLE_IRQ: u8 = 0b0100_0000;

    /// Bit 7: the sequencer runs through five steps, not four.
    pub const SEQUENCER_MODE: u8 = 0b1000_0000;

    /// The register at power-on: four steps, interrupts not inhibited.
    pub fn new() -> (frame_counter: Self)
        ensures
            frame_counter.bits == 0,
            frame_counter.spec_mode() == 4,
            frame_counter.spec_irq(),
    {
        proof {
            lemma_flag_bits(0, 0);
        }
        FrameCounter { bits: 0 }
    }

    /// The number of steps in a sequence: 5 with bit 7 set, else 4.
    pub open spec fn spec_mode(self) -> u8 {
        if self.bits & Self::SEQUENCER_MODE != 0 {
            5
        } else {
            4
        }
    }

    pub fn mode(&self) -> (steps: u8)
        ensures
            steps == self.spec_mode(),
    {
        if self.bits & Self::SEQUENCER_MODE != 0 {
            5
        } else {
            4
        }
    }

    /// True when the frame interrupt is not inhibited: bit 6 is clear.
    pub open spec fn spec_irq(self) -> bool {
        self.bits & Self::DISABLE_IRQ == 0
    }

    pub fn irq(&self) -> (allowed: bool)
        ensures
            allowed == self.spec_irq(),
    {
        self.bits & Self::DISABLE_IRQ == 0
    }

    pub fn update(&mut self, data: u8)
        ensures
            final(self).bits == data,
    {
        self.bits = data;
    }
}

/// The status register, $4015: five channel enable bits and the two
/// interrupt flags.
#[derive(Debug, Clone, Copy, PartialEq, Eq, Structural)]
pub struct StatusRegister {
    pub bits: u8,
}

impl StatusRegister {
    pub const ENABLE_1CH: u8 = 0b0000_0001;

    pub const ENABLE_2CH: u8 = 0b0000_0010;

    pub const ENABLE_3CH: u8 = 0b0000_0100;

    pub const ENABLE_4CH: u8 = 0b0000_1000;

    pub const ENABLE_DMC: u8 = 0b0001_0000;

    pub const ENABLE_FRAME_IRQ: u8 = 0b0100_0000;

    pub const ENABLE_DMC_IRQ: u8 = 0b1000_0000;

    pub fn new() -> (status: Self)
        ensures
            status.bits == 0,
            !status.frame_irq(),
            !status.dmc_irq(),
    {
        proof {
            lemma_flag_bits(0, 0);
        }
        StatusRegister { bits: 0 }
    }

    pub fn update(&mut self, data: u8)
        ensures
            final(self).bits == data,
    {
        self.bits = data;
    }

    /// True when the frame interrupt flag, bit 6, is set.
    pub open spec fn frame_irq(self) -> bool {
        self.bits & Self::ENABLE_FRAME_IRQ != 0
    }

    /// True when the delta-modulation interrupt flag, bit 7, is set.
    pub open spec fn dmc_irq(self) -> bool {
        self.bits & Self::ENABLE_DMC_IRQ != 0
    }

    pub open spec fn spec_insert(self, flag: u8) -> Self {
        StatusRegister { bits: self.bits | flag }
    }

    pub fn insert(&mut self, flag: u8)
        ensures
            *final(self) == old(self).spec_insert(flag),
    {
        self.bits = self.bits | flag;
    }

    pub open spec fn spec_remove(self, flag: u8) -> Self {
        StatusRegister { bits: self.bits & !flag }
    }

    pub fn remove(&mut self, flag: u8)
        ensures
            *final(self) == old(self).spec_remove(flag),
    {
        self.bits = self.bits & !flag;
    }

    /// The register after a write of the enable bits: the low five bits are
    /// the written ones, the frame interrupt flag stays, and the
    /// delta-modulation interrupt flag is cleared.
    pub open spec fn spec_enable(self, data: u8) -> Self {
        StatusRegister { bits: (self.bits & Self::ENABLE_FRAME_IRQ) | (data & 0x1F) }
    }
}

/// How setting and clearing the interrupt flags shows in the status bits.
pub proof fn lemma_flag_bits(bits: u8, data: u8)
    by (bit_vector)
    ensures
        (bits | 0x40) & 0x40 != 0,
        (bits | 0x40) & 0x80 == bits & 0x80,
        (bits | 0x80) & 0x80 != 0,
        (bits | 0x80) & 0x40 == bits & 0x40,
        (bits & !0x40u8) & 0x40 == 0,
        (bits & !0x40u8) & 0x80 == bits & 0x80,
        ((bits & 0x40) | (data & 0x1F)) & 0x40 == bits & 0x40,
        ((bits & 0x40) | (data & 0x1F)) & 0x80 == 0,
        data <= 0x1F ==> ((bits & 0xC0) | data) & 0x40 == bits & 0x40,
        data <= 0x1F ==> ((bits & 0xC0) | data) & 0x80 == bits & 0x80,
        data <= 0x1F ==> ((bits & 0xC0) | data) & 0x1F == data,
        0u8 & 0x40 == 0,
        0u8 & 0x80 == 0,
{
}

/// The counter that a run of notifications leaves: the last one that was
/// reported, or the current one if none was.
pub open spec fn latest_counter(notices: Seq<ChannelEvent>, current: u32) -> u32
    decreases notices.len(),
{
    if notices.len() == 0 {
        current
    } else {
        match notices.last() {
            ChannelEvent::LengthCounter(counter) => counter,
            ChannelEvent::Irq() => latest_counter(notices.drop_last(), current),
        }
    }
}

/// True when a run of notifications holds an interrupt request.
pub open spec fn requests_irq(notices: Seq<ChannelEvent>) -> bool {
    exists|i: int| 0 <= i < notices.len() && notices[i] == ChannelEvent::Irq()
}

/// Takes all notifications out of a queue. Returns the counter that they
/// leave and whether one of them asks for an interrupt.
pub fn drain_notices(notices: &mut Vec<ChannelEvent>, current: u32) -> (result: (u32, bool))
    ensures
        final(notices)@ == Seq::<ChannelEvent>::empty(),
        result.0 == latest_counter(old(notices)@, current),
        result.1 == requests_irq(old(notices)@),
{
    let mut counter = current;
    let mut irq = false;
    let mut i: usize = 0;
    while i < notices.len()
        invariant
            0 <= i <= notices@.len(),
            notices@ == old(notices)@,
            counter == latest_counter(notices@.take(i as int), current),
            irq == requests_irq(notices@.take(i as int)),
        decreases notices@.len() - i,
    {
        let ghost seen = notices@.take(i as int);
        let ghost next = notices@.take(i + 1);
        proof {
            assert(next.drop_last() =~= seen);
            assert(next.last() == notices@[i as int]);
            if requests_irq(seen) {
                let k = choose|k: int| 0 <= k < seen.len() && seen[k] == ChannelEvent::Irq();
                assert(next[k] == ChannelEvent::Irq());
            }
            if requests_irq(next) && notices@[i as int] != ChannelEvent::Irq() {
                let k = choose|k: int| 0 <= k < next.len() && next[k] == ChannelEvent::Irq();
                assert(seen[k] == ChannelEvent::Irq());
            }
        }
        match notices[i] {
            ChannelEvent::LengthCounter(value) => {
                counter = value;
            },
            ChannelEvent::Irq() => {
                irq = true;
                assert(next[i as int] == ChannelEvent::Irq());
            },
        }
        i += 1;
    }
    proof {
        assert(notices@.take(i as int) =~= notices@);
    }
    notices.clear();
    (counter, irq)
}

/// 1 for a channel whose counter is not 0, else 0.
pub open spec fn active(counter: u32) -> int {
    if counter != 0 {
        1
    } else {
        0
    }
}

/// The audio processing unit as a value: what `NesAPU` holds, with each
/// queue as the sequence of its entries, oldest first.
pub struct ApuState {
    pub ch1_register: Ch1Register,
    pub ch2_register: Ch2Register,
    pub ch3_register: Ch3Register,
    pub ch4_register: Ch4Register,
    pub dmc_register: DMCRegister,
    pub frame_counter: FrameCounter,
    pub status: StatusRegister,
    pub cycles: usize,
    pub counter: usize,
    pub ch1_events: Seq<SquareEvent>,
    pub ch1_notices: Seq<ChannelEvent>,
    pub ch1_length_counter: u32,
    pub ch2_events: Seq<SquareEvent>,
    pub ch2_notices: Seq<ChannelEvent>,
    pub ch2_length_counter: u32,
    pub ch3_events: Seq<TriangleEvent>,
    pub ch3_notices: Seq<ChannelEvent>,
    pub ch3_length_counter: u32,
    pub ch4_events: Seq<NoiseEvent>,
    pub ch4_notices: Seq<ChannelEvent>,
    pub ch4_length_counter: u32,
    pub dmc_events: Seq<DMCEvent>,
    pub dmc_notices: Seq<ChannelEvent>,
    pub dmc_sample_byte_count: u32,
}

/// The emulation side of the audio processing unit: the channels'
/// registers, the frame sequencer and the status register. Each channel has
/// a queue of events that wait to be taken to its synthesizer, a queue of
/// notifications that its synthesizer has sent back, and the counter that
/// the last notification reported.
pub struct NesAPU {
    pub ch1_register: Ch1Register,
    pub ch2_register: Ch2Register,
    pub ch3_register: Ch3Register,
    pub ch4_register: Ch4Register,
    pub dmc_register: DMCRegister,
    pub frame_counter: FrameCounter,
    pub status: StatusRegister,
    /// CPU cycles since the sequencer's last step.
    pub cycles: usize,
    /// The sequencer's step: 0 before the first step of a sequence.
    pub counter: usize,
    pub ch1_events: Vec<SquareEvent>,
    pub ch1_notices: Vec<ChannelEvent>,
    pub ch1_length_counter: u32,
    pub ch2_events: Vec<SquareEvent>,
    pub ch2_notices: Vec<ChannelEvent>,
    pub ch2_length_counter: u32,
    pub ch3_events: Vec<TriangleEvent>,
    pub ch3_notices: Vec<ChannelEvent>,
    pub ch3_length_counter: u32,
    pub ch4_events: Vec<NoiseEvent>,
    pub ch4_notices: Vec<ChannelEvent>,
    pub ch4_length_counter: u32,
    pub dmc_events: Vec<DMCEvent>,
    pub dmc_notices: Vec<ChannelEvent>,
    pub dmc_sample_byte_count: u32,
}

impl View for NesAPU {
    type V = ApuState;

    open spec fn view(&self) -> ApuState {
        ApuState {
            ch1_register: self.ch1_register,
            ch2_register: self.ch2_register,
            ch3_register: self.ch3_register,
            ch4_register: self.ch4_register,
            dmc_register: self.dmc_register,
            frame_counter: self.frame_counter,
            status: self.status,
            cycles: self.cycles,
            counter: self.counter,
            ch1_events: self.ch1_events@,
            ch1_notices: self.ch1_notices@,
            ch1_length_counter: self.ch1_length_counter,
            ch2_events: self.ch2_events@,
            ch2_notices: self.ch2_notices@,
            ch2_length_counter: self.ch2_length_counter,
            ch3_events: self.ch3_events@,
            ch3_notices: self.ch3_notices@,
            ch3_length_counter: self.ch3_length_counter,
            ch4_events: self.ch4_events@,
            ch4_notices: self.ch4_notices@,
            ch4_length_counter: self.ch4_length_counter,
            dmc_events: self.dmc_events@,
            dmc_notices: self.dmc_notices@,
            dmc_sample_byte_count: self.dmc_sample_byte_count,
        }
    }
}

impl ApuState {
    /// The unit's invariant: the sequencer's counters are in range, the
    /// registers hold values of their fields' widths, and so do the events
    /// in the queues.
    pub open spec fn wf(self) -> bool {
        &&& self.cycles < FRAME_INTERVAL
        &&& self.counter <= 4
        &&& self.frame_counter.spec_mode() == 4 ==> self.counter <= 3
        &&& self.ch1_register.wf()
        &&& self.ch2_register.wf()
        &&& self.ch3_register.wf()
        &&& self.ch4_register.wf()
        &&& self.dmc_register.wf()
        &&& forall|i: int| 0 <= i < self.ch1_events.len() ==> (#[trigger] self.ch1_events[i]).wf()
        &&& forall|i: int| 0 <= i < self.ch2_events.len() ==> (#[trigger] self.ch2_events[i]).wf()
        &&& forall|i: int| 0 <= i < self.ch3_events.len() ==> (#[trigger] self.ch3_events[i]).wf()
        &&& forall|i: int| 0 <= i < self.ch4_events.len() ==> (#[trigger] self.ch4_events[i]).wf()
        &&& forall|i: int| 0 <= i < self.dmc_events.len() ==> (#[trigger] self.dmc_events[i]).wf()
    }

    /// The unit at power-on.
    pub open spec fn power_on() -> Self {
        ApuState {
            ch1_register: Ch1Register::spec_new(),
            ch2_register: Ch2Register::spec_new(),
            ch3_register: Ch3Register::spec_new(),
            ch4_register: Ch4Register::spec_new(),
            dmc_register: DMCRegister::spec_new(),
            frame_counter: FrameCounter { bits: 0 },
            status: StatusRegister { bits: 0 },
            cycles: 0,
            counter: 0,
            ch1_events: Seq::empty(),
            ch1_notices: Seq::empty(),
            ch1_length_counter: 0,
            ch2_events: Seq::empty(),
            ch2_notices: Seq::empty(),
            ch2_length_counter: 0,
            ch3_events: Seq::empty(),
            ch3_notices: Seq::empty(),
            ch3_length_counter: 0,
            ch4_events: Seq::empty(),
            ch4_notices: Seq::empty(),
            ch4_length_counter: 0,
            dmc_events: Seq::empty(),
            dmc_notices: Seq::empty(),
            dmc_sample_byte_count: 0,
        }
    }

    /// A write to a register of pulse channel 1: the fields take the value,
    /// and the events of the register join the channel's queue.
    pub open spec fn write_1ch(self, addr: u16, value: u8) -> Self {
        let register = self.ch1_register.spec_write(addr, value);
        ApuState {
            ch1_register: register,
            ch1_events: self.ch1_events + register.spec_events(addr),
            ..self
        }
    }

    /// A write to a register of pulse channel 2.
    pub open spec fn write_2ch(self, addr: u16, value: u8) -> Self {
        let register = self.ch2_register.spec_write(addr, value);
        ApuState {
            ch2_register: register,
            ch2_events: self.ch2_events + register.spec_events(addr),
            ..self
        }
    }

    /// A write to a register of the triangle channel.
    pub open spec fn write_3ch(self, addr: u16, value: u8) -> Self {
        let register = self.ch3_register.spec_write(addr, value);
        ApuState {
            ch3_register: register,
            ch3_events: self.ch3_events + register.spec_events(addr),
            ..self
        }
    }

    /// A write to a register of the noise channel.
    pub open spec fn write_4ch(self, addr: u16, value: u8) -> Self {
        let register = self.ch4_register.spec_write(addr, value);
        ApuState {
            ch4_register: register,
            ch4_events: self.ch4_events + register.spec_events(addr),
            ..self
        }
    }

    /// A write to a register of the delta-modulation channel.
    pub open spec fn write_dmc(self, addr: u16, value: u8) -> Self {
        let register = self.dmc_register.spec_write(addr, value);
        ApuState {
            dmc_register: register,
            dmc_events: self.dmc_events + dmc_events(register, addr),
            ..self
        }
    }

    /// The unit after it has taken in all notifications: each channel's
    /// counter is the last one reported, the queues of notifications are
    /// empty, and an interrupt request of the delta-modulation channel has
    /// set its flag.
    pub open spec fn receive_events(self) -> Self {
        ApuState {
            ch1_length_counter: latest_counter(self.ch1_notices, self.ch1_length_counter),
            ch2_length_counter: latest_counter(self.ch2_notices, self.ch2_length_counter),
            ch3_length_counter: latest_counter(self.ch3_notices, self.ch3_length_counter),
            ch4_length_counter: latest_counter(self.ch4_notices, self.ch4_length_counter),
            dmc_sample_byte_count: latest_counter(self.dmc_notices, self.dmc_sample_byte_count),
            ch1_notices: Seq::empty(),
            ch2_notices: Seq::empty(),
            ch3_notices: Seq::empty(),
            ch4_notices: Seq::empty(),
            dmc_notices: Seq::empty(),
            status: if requests_irq(self.dmc_notices) {
                self.status.spec_insert(StatusRegister::ENABLE_DMC_IRQ)
            } else {
                self.status
            },
            ..self
        }
    }

    /// The low five bits of a status read: bit 0 to 3 for the pulse,
    /// triangle and noise channels whose length counter is not 0, bit 4 for
    /// a delta-modulation channel with bytes left.
    pub open spec fn active_bits(self) -> int {
        active(self.ch1_length_counter) + 2 * active(self.ch2_length_counter) + 4 * active(
            self.ch3_length_counter,
        ) + 8 * active(self.ch4_length_counter) + 16 * active(self.dmc_sample_byte_count)
    }

    /// What a status read returns with the counters as they are: the five
    /// active bits, bit 5 clear, the frame interrupt flag in bit 6 and the
    /// delta-modulation interrupt flag in bit 7.
    pub open spec fn status_byte(self) -> u8 {
        (self.status.bits & 0xC0) | (self.active_bits() as u8)
    }

    /// A read of $4015: takes in the notifications, builds the byte, and
    /// clears the frame interrupt flag.
    pub open spec fn read_status(self) -> (Self, u8) {
        let received = self.receive_events();
        (
            ApuState {
                status: received.status.spec_remove(StatusRegister::ENABLE_FRAME_IRQ),
                ..received
            },
            received.status_byte(),
        )
    }

    /// A write to $4015: bit 0 to 4 enable the five channels, each of which
    /// is sent its bit.
    pub open spec fn write_status(self, data: u8) -> Self {
        ApuState {
            status: self.status.spec_enable(data),
            ch1_events: self.ch1_events.push(
                SquareEvent::Enable(data & StatusRegister::ENABLE_1CH != 0),
            ),
            ch2_events: self.ch2_events.push(
                SquareEvent::Enable(data & StatusRegister::ENABLE_2CH != 0),
            ),
            ch3_events: self.ch3_events.push(
                TriangleEvent::Enable(data & StatusRegister::ENABLE_3CH != 0),
            ),
            ch4_events: self.ch4_events.push(
                NoiseEvent::Enable(data & StatusRegister::ENABLE_4CH != 0),
            ),
            dmc_events: self.dmc_events.push(
                DMCEvent::Enable(data & StatusRegister::ENABLE_DMC != 0),
            ),
            ..self
        }
    }

    /// A write to $4017: sets the sequencer's mode and interrupt inhibit,
    /// and starts its sequence over.
    pub open spec fn write_frame_counter(self, value: u8) -> Self {
        ApuState { frame_counter: FrameCounter { bits: value }, cycles: 0, counter: 0, ..self }
    }

    /// True when the unit asks the CPU for an interrupt: one of its two
    /// interrupt flags is set.
    pub open spec fn irq(self) -> bool {
        self.status.frame_irq() || self.status.dmc_irq()
    }

    /// A half-frame tick of the length counters of the four channels that
    /// have one.
    pub open spec fn send_length_counter_tick(self) -> Self {
        ApuState {
            ch1_events: self.ch1_events.push(SquareEvent::LengthCounterTick()),
            ch2_events: self.ch2_events.push(SquareEvent::LengthCounterTick()),
            ch3_events: self.ch3_events.push(TriangleEvent::LengthCounterTick()),
            ch4_events: self.ch4_events.push(NoiseEvent::LengthCounterTick()),
            ..self
        }
    }

    /// A quarter-frame tick of the envelopes of the pulse and noise channels
    /// and of the triangle channel's linear counter.
    pub open spec fn send_envelope_tick(self) -> Self {
        ApuState {
            ch1_events: self.ch1_events.push(SquareEvent::EnvelopeTick()),
            ch2_events: self.ch2_events.push(SquareEvent::EnvelopeTick()),
            ch4_events: self.ch4_events.push(NoiseEvent::EnvelopeTick()),
            ch3_events: self.ch3_events.push(TriangleEvent::LinearCounterTick()),
            ..self
        }
    }

    /// A half-frame tick of the sweep units of the two pulse channels.
    pub open spec fn send_sweep_tick(self) -> Self {
        ApuState {
            ch1_events: self.ch1_events.push(SquareEvent::SweepTick()),
            ch2_events: self.ch2_events.push(SquareEvent::SweepTick()),
            ..self
        }
    }

    /// True when the step that `counter` names brings a half-frame tick:
    /// steps 2 and 4 of four, steps 1 and 3 of five.
    pub open spec fn is_half_frame(self) -> bool {
        if self.frame_counter.spec_mode() == 4 {
            self.counter == 2 || self.counter == 4
        } else {
            self.counter == 1 || self.counter == 3
        }
    }

    /// True when the step that `counter` names brings a quarter-frame tick:
    /// every step of four, the first four steps of five.
    pub open spec fn is_quarter_frame(self) -> bool {
        self.frame_counter.spec_mode() == 4 || self.counter <= 4
    }

    /// True when the step that `counter` names is the last of its sequence.
    pub open spec fn is_last_step(self) -> bool {
        self.counter == self.frame_counter.spec_mode()
    }

    /// True when the step that `counter` names raises the frame interrupt:
    /// the last step of four, unless the interrupt is inhibited.
    pub open spec fn raises_frame_irq(self) -> bool {
        self.frame_counter.spec_mode() == 4 && self.counter == 4 && self.frame_counter.spec_irq()
    }

    /// What the sequencer does at the step that `counter` names: first the
    /// half-frame ticks, then the quarter-frame tick; the last step of a
    /// sequence sets the counter back to 0 and may raise the interrupt.
    pub open spec fn sequence(self) -> Self {
        let half = if self.is_half_frame() {
            self.send_length_counter_tick().send_sweep_tick()
        } else {
            self
        };
        let quarter = if self.is_quarter_frame() {
            half.send_envelope_tick()
        } else {
            half
        };
        ApuState {
            counter: if self.is_last_step() {
                0
            } else {
                self.counter
            },
            status: if self.raises_frame_irq() {
                self.status.spec_insert(StatusRegister::ENABLE_FRAME_IRQ)
            } else {
                self.status
            },
            ..quarter
        }
    }

    /// The unit after the CPU has run for `cycles` cycles: once a frame
    /// interval is full, the unit takes in the notifications and the
    /// sequencer makes its next step.
    pub open spec fn tick(self, cycles: u8) -> Self {
        if self.cycles + cycles < FRAME_INTERVAL {
            ApuState { cycles: (self.cycles + cycles) as usize, ..self }
        } else {
            (ApuState {
                cycles: (self.cycles + cycles - FRAME_INTERVAL) as usize,
                counter: (self.counter + 1) as usize,
                ..self
            }).receive_events().sequence()
        }
    }

    /// The unit after a run of calls of `tick`.
    pub open spec fn ticks(self, cycles: Seq<u8>) -> Self
        decreases cycles.len(),
    {
        if cycles.len() == 0 {
            self
        } else {
            self.ticks(cycles.drop_last()).tick(cycles.last())
        }
    }
}

impl NesAPU {
    /// The unit at power-on: all registers clear, four-step sequence,
    /// nothing queued.
    pub fn new() -> (apu: Self)
        ensures
            apu@ == ApuState::power_on(),
            apu@.wf(),
            !apu@.irq(),
    {
        NesAPU {
            ch1_register: Ch1Register::new(),
            ch2_register: Ch2Register::new(),
            ch3_register: Ch3Register::new(),
            ch4_register: Ch4Register::new(),
            dmc_register: DMCRegister::new(),
            frame_counter: FrameCounter::new(),
            status: StatusRegister::new(),
            cycles: 0,
            counter: 0,
            ch1_events: Vec::new(),
            ch1_notices: Vec::new(),
            ch1_length_counter: 0,
            ch2_events: Vec::new(),
            ch2_notices: Vec::new(),
            ch2_length_counter: 0,
            ch3_events: Vec::new(),
            ch3_notices: Vec::new(),
            ch3_length_counter: 0,
            ch4_events: Vec::new(),
            ch4_notices: Vec::new(),
            ch4_length_counter: 0,
            dmc_events: Vec::new(),
            dmc_notices: Vec::new(),
            dmc_sample_byte_count: 0,
        }
    }

    /// A write to $4000 to $4003.
    pub fn write_1ch(&mut self, addr: u16, value: u8)
        requires
            old(self)@.wf(),
            CH1_BASE <= addr <= CH1_BASE + 3,
        ensures
            final(self)@ == old(self)@.write_1ch(addr, value),
            final(self)@.wf(),
    {
        self.ch1_register.write(addr, value);
        self.ch1_register.send_events(addr, &mut self.ch1_events);
    }

    /// A write to $4004 to $4007.
    pub fn write_2ch(&mut self, addr: u16, value: u8)
        requires
            old(self)@.wf(),
            CH2_BASE <= addr <= CH2_BASE + 3,
        ensures
            final(self)@ == old(self)@.write_2ch(addr, value),
            final(self)@.wf(),
    {
        self.ch2_register.write(addr, value);
        self.ch2_register.send_events(addr, &mut self.ch2_events);
    }

    /// A write to $4008 to $400B.
    pub fn write_3ch(&mut self, addr: u16, value: u8)
        requires
            old(self)@.wf(),
            CH3_BASE <= addr <= CH3_BASE + 3,
        ensures
            final(self)@ == old(self)@.write_3ch(addr, value),
            final(self)@.wf(),
    {
        self.ch3_register.write(addr, value);
        self.ch3_register.send_events(addr, &mut self.ch3_events);
    }

    /// A write to $400C, $400E or $400F.
    pub fn write_4ch(&mut self, addr: u16, value: u8)
        requires
            old(self)@.wf(),
            Ch4Register::is_register(addr),
        ensures
            final(self)@ == old(self)@.write_4ch(addr, value),
            final(self)@.wf(),
    {
        self.ch4_register.write(addr, value);
        self.ch4_register.send_events(addr, &mut self.ch4_events);
    }

    /// A write to $4010 to $4013.
    pub fn write_dmc(&mut self, addr: u16, value: u8)
        requires
            old(self)@.wf(),
            DMC_BASE <= addr <= DMC_BASE + 3,
        ensures
            final(self)@ == old(self)@.write_dmc(addr, value),
            final(self)@.wf(),
    {
        self.dmc_register.write(addr, value);
        send_dmc_events(&self.dmc_register, addr, &mut self.dmc_events);
    }

    /// A read of $4015. Bit 0 to 4 of the result tell which channels have a
    /// counter that is not 0, by the latest notifications; bit 6 and 7 are
    /// the frame and the delta-modulation interrupt flag. The read clears
    /// the frame interrupt flag.
    pub fn read_status(&mut self) -> (res: u8)
        requires
            old(self)@.wf(),
        ensures
            final(self)@ == old(self)@.read_status().0,
            res == old(self)@.read_status().1,
            final(self)@.wf(),
            !final(self)@.status.frame_irq(),
            (res & 0x40 != 0) == old(self)@.status.frame_irq(),
    {
        self.receive_events();
        let mut active: u8 = 0;
        if self.ch1_length_counter != 0 {
            active += 1;
        }
        if self.ch2_length_counter != 0 {
            active += 2;
        }
        if self.ch3_length_counter != 0 {
            active += 4;
        }
        if self.ch4_length_counter != 0 {
            active += 8;
        }
        if self.dmc_sample_byte_count != 0 {
            active += 16;
        }
        let res = (self.status.bits & 0xC0) | active;
        proof {
            lemma_flag_bits(self.status.bits, active);
            lemma_flag_bits(old(self).status.bits, 0);
        }
        self.status.remove(StatusRegister::ENABLE_FRAME_IRQ);
        res
    }

    /// A write to $4015.
    pub fn write_status(&mut self, data: u8)
        requires
            old(self)@.wf(),
        ensures
            final(self)@ == old(self)@.write_status(data),
            final(self)@.wf(),
            final(self)@.status.frame_irq() == old(self)@.status.frame_irq(),
            !final(self)@.status.dmc_irq(),
    {
        proof {
            lemma_flag_bits(self.status.bits, data);
        }
        self.status.update((self.status.bits & StatusRegister::ENABLE_FRAME_IRQ) | (data & 0x1F));
        self.ch1_events.push(SquareEvent::Enable(data & StatusRegister::ENABLE_1CH != 0));
        self.ch2_events.push(SquareEvent::Enable(data & StatusRegister::ENABLE_2CH != 0));
        self.ch3_events.push(TriangleEvent::Enable(data & StatusRegister::ENABLE_3CH != 0));
        self.ch4_events.push(NoiseEvent::Enable(data & StatusRegister::ENABLE_4CH != 0));
        self.dmc_events.push(DMCEvent::Enable(data & StatusRegister::ENABLE_DMC != 0));
    }

    /// A write to $4017. The sequencer starts over at once.
    pub fn write_frame_counter(&mut self, value: u8)
        requires
            old(self)@.wf(),
        ensures
            final(self)@ == old(self)@.write_frame_counter(value),
            final(self)@.wf(),
            final(self)@.status == old(self)@.status,
    {
        self.frame_counter.update(value);
        self.cycles = 0;
        self.counter = 0;
    }

    /// Takes in the notifications that the synthesizers have sent back.
    pub fn receive_events(&mut self)
        requires
            old(self)@.wf(),
        ensures
            final(self)@ == old(self)@.receive_events(),
            final(self)@.wf(),
            final(self)@.status.frame_irq() == old(self)@.status.frame_irq(),
    {
        let (counter, _) = drain_notices(&mut self.ch1_notices, self.ch1_length_counter);
        self.ch1_length_counter = counter;
        let (counter, _) = drain_notices(&mut self.ch2_notices, self.ch2_length_counter);
        self.ch2_length_counter = counter;
        let (counter, _) = drain_notices(&mut self.ch3_notices, self.ch3_length_counter);
        self.ch3_length_counter = counter;
        let (counter, _) = drain_notices(&mut self.ch4_notices, self.ch4_length_counter);
        self.ch4_length_counter = counter;
        let (counter, irq) = drain_notices(&mut self.dmc_notices, self.dmc_sample_byte_count);
        self.dmc_sample_byte_count = counter;
        if irq {
            proof {
                lemma_flag_bits(self.status.bits, 0);
            }
            self.status.insert(StatusRegister::ENABLE_DMC_IRQ);
        }
    }

    /// Tells whether the unit asks the CPU for an interrupt.
    pub fn irq(&self) -> (pending: bool)
        ensures
            pending == self@.irq(),
    {
        self.status.bits & StatusRegister::ENABLE_FRAME_IRQ != 0 || self.status.bits
            & StatusRegister::ENABLE_DMC_IRQ != 0
    }

    /// Advances the frame sequencer by the CPU cycles of one instruction.
    /// In the five-step mode no call raises the frame interrupt.
    pub fn tick(&mut self, cycles: u8)
        requires
            old(self)@.wf(),
        ensures
            final(self)@ == old(self)@.tick(cycles),
            final(self)@.wf(),
            old(self)@.frame_counter.spec_mode() == 5 ==> final(self)@.status.frame_irq() == old(
                self,
            )@.status.frame_irq(),
    {
        self.cycles += cycles as usize;
        let interval = FRAME_INTERVAL;
        if self.cycles >= interval {
            self.cycles -= interval;
            self.receive_events();
            self.counter += 1;
            let ghost received = self@;
            match self.frame_counter.mode() {
                4 => {
                    if self.counter == 2 || self.counter == 4 {
                        self.send_length_counter_tick();
                        self.send_sweep_tick();
                    }
                    if self.counter == 4 {
                        self.counter = 0;
                        if self.frame_counter.irq() {
                            self.status.insert(StatusRegister::ENABLE_FRAME_IRQ);
                        }
                    }
                    self.send_envelope_tick();
                },
                _ => {
                    if self.counter == 1 || self.counter == 3 {
                        self.send_length_counter_tick();
                        self.send_sweep_tick();
                    }
                    if self.counter <= 4 {
                        self.send_envelope_tick();
                    }
                    if self.counter == 5 {
                        self.counter = 0;
                    }
                },
            }
            assert(self@ == received.sequence());
        }
    }

    fn send_length_counter_tick(&mut self)
        ensures
            final(self)@ == old(self)@.send_length_counter_tick(),
            old(self)@.wf() ==> final(self)@.wf(),
    {
        self.ch1_events.push(SquareEvent::LengthCounterTick());
        self.ch2_events.push(SquareEvent::LengthCounterTick());
        self.ch3_events.push(TriangleEvent::LengthCounterTick());
        self.ch4_events.push(NoiseEvent::LengthCounterTick());
    }

    fn send_envelope_tick(&mut self)
        ensures
            final(self)@ == old(self)@.send_envelope_tick(),
            old(self)@.wf() ==> final(self)@.wf(),
    {
        self.ch1_events.push(SquareEvent::EnvelopeTick());
        self.ch2_events.push(SquareEvent::EnvelopeTick());
        self.ch4_events.push(NoiseEvent::EnvelopeTick());
        self.ch3_events.push(TriangleEvent::LinearCounterTick());
    }

    fn send_sweep_tick(&mut self)
        ensures
            final(self)@ == old(self)@.send_sweep_tick(),
            old(self)@.wf() ==> final(self)@.wf(),
    {
        self.ch1_events.push(SquareEvent::SweepTick());
        self.ch2_events.push(SquareEvent::SweepTick());
    }
}

/// How the five active bits show in a status byte whose low bits are the
/// sum of their weights.
proof fn lemma_active_bits(bits: u8, b0: u8, b1: u8, b2: u8, b3: u8, b4: u8)
    by (bit_vector)
    requires
        b0 <= 1,
        b1 <= 1,
        b2 <= 1,
        b3 <= 1,
        b4 <= 1,
    ensures
        (((bits & 0xC0) | (b0 + 2 * b1 + 4 * b2 + 8 * b3 + 16 * b4) as u8) & 0x01 != 0) == (b0
            == 1),
        (((bits & 0xC0) | (b0 + 2 * b1 + 4 * b2 + 8 * b3 + 16 * b4) as u8) & 0x02 != 0) == (b1
            == 1),
        (((bits & 0xC0) | (b0 + 2 * b1 + 4 * b2 + 8 * b3 + 16 * b4) as u8) & 0x04 != 0) == (b2
            == 1),
        (((bits & 0xC0) | (b0 + 2 * b1 + 4 * b2 + 8 * b3 + 16 * b4) as u8) & 0x08 != 0) == (b3
            == 1),
        (((bits & 0xC0) | (b0 + 2 * b1 + 4 * b2 + 8 * b3 + 16 * b4) as u8) & 0x10 != 0) == (b4
            == 1),
        ((bits & 0xC0) | (b0 + 2 * b1 + 4 * b2 + 8 * b3 + 16 * b4) as u8) & 0x20 == 0,
        (((bits & 0xC0) | (b0 + 2 * b1 + 4 * b2 + 8 * b3 + 16 * b4) as u8) & 0x40) == bits & 0x40,
        (((bits & 0xC0) | (b0 + 2 * b1 + 4 * b2 + 8 * b3 + 16 * b4) as u8) & 0x80) == bits & 0x80,
{
}

/// In a status byte, bit 0 to 3 are set exactly for the pulse, triangle and
/// noise channels whose latest length counter is not 0, bit 4 exactly when
/// the delta-modulation channel has bytes left, bit 5 never, and bit 6 and
/// 7 exactly when the frame and the delta-modulation interrupt flag are set.
pub proof fn lemma_status_byte(apu: ApuState)
    ensures
        (apu.status_byte() & 0x01 != 0) == (apu.ch1_length_counter != 0),
        (apu.status_byte() & 0x02 != 0) == (apu.ch2_length_counter != 0),
        (apu.status_byte() & 0x04 != 0) == (apu.ch3_length_counter != 0),
        (apu.status_byte() & 0x08 != 0) == (apu.ch4_length_counter != 0),
        (apu.status_byte() & 0x10 != 0) == (apu.dmc_sample_byte_count != 0),
        apu.status_byte() & 0x20 == 0,
        (apu.status_byte() & 0x40 != 0) == apu.status.frame_irq(),
        (apu.status_byte() & 0x80 != 0) == apu.status.dmc_irq(),
{
    lemma_active_bits(
        apu.status.bits,
        active(apu.ch1_length_counter) as u8,
        active(apu.ch2_length_counter) as u8,
        active(apu.ch3_length_counter) as u8,
        active(apu.ch4_length_counter) as u8,
        active(apu.dmc_sample_byte_count) as u8,
    );
}

/// A read of the status register reports the frame interrupt flag in bit 6
/// and clears it: a second read right after the first finds bit 6 clear.
pub proof fn lemma_status_read_clears_frame_irq(apu: ApuState)
    ensures
        (apu.read_status().1 & 0x40 != 0) == apu.status.frame_irq(),
        !apu.read_status().0.status.frame_irq(),
        apu.read_status().0.read_status().1 & 0x40 == 0,
{
    let received = apu.receive_events();
    lemma_flag_bits(apu.status.bits, 0);
    lemma_flag_bits(received.status.bits, 0);
    lemma_status_byte(received);
    let first = apu.read_status().0;
    assert(!requests_irq(first.dmc_notices));
    lemma_status_byte(first.receive_events());
}

/// One call of `tick` in the five-step mode leaves the frame interrupt flag
/// and the sequencer's mode as they are.
pub proof fn lemma_five_step_tick(apu: ApuState, cycles: u8)
    requires
        apu.frame_counter.spec_mode() == 5,
    ensures
        apu.tick(cycles).status.frame_irq() == apu.status.frame_irq(),
        apu.tick(cycles).frame_counter == apu.frame_counter,
{
    lemma_flag_bits(apu.status.bits, 0);
}

/// In the five-step mode the sequencer never raises the frame interrupt,
/// however long it runs and whether or not the interrupt is inhibited.
pub proof fn lemma_five_step_never_raises(apu: ApuState, cycles: Seq<u8>)
    requires
        apu.frame_counter.spec_mode() == 5,
    ensures
        apu.ticks(cycles).status.frame_irq() == apu.status.frame_irq(),
        apu.ticks(cycles).frame_counter == apu.frame_counter,
    decreases cycles.len(),
{
    if cycles.len() > 0 {
        lemma_five_step_never_raises(apu, cycles.drop_last());
        lemma_five_step_tick(apu.ticks(cycles.drop_last()), cycles.last());
    }
}

/// After a write to $4017 with bit 7 set, the frame interrupt flag stays as
/// the write found it, whatever bit 6 of the written value is.
pub proof fn lemma_five_step_write_never_raises(apu: ApuState, value: u8, cycles: Seq<u8>)
    requires
        value & 0x80 != 0,
    ensures
        apu.write_frame_counter(value).ticks(cycles).status.frame_irq() == apu.status.frame_irq(),
{
    lemma_five_step_never_raises(apu.write_frame_counter(value), cycles);
}

/// Every call of `tick` keeps the unit's invariant.
pub proof fn lemma_tick_keeps_wf(apu: ApuState, cycles: u8)
    requires
        apu.wf(),
    ensures
        apu.tick(cycles).wf(),
{
}

} // verus!
