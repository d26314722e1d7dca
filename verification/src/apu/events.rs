//! The messages that cross between the emulation side and the audio side:
//! parameter changes and ticks forward, counter notifications backward.
use vstd::prelude::*;
use crate::apu::units::{EnvelopeData, LengthCounterData, LinearCounterData, SweepData};

verus! {

/// A notification from a channel synthesizer back to the status register.
#[derive(Debug, Clone, Copy, PartialEq, Eq, Structural)]
pub enum ChannelEvent {
    /// The channel's length counter, or the bytes that the delta-modulation
    /// channel still has to play, now stands at this value.
    LengthCounter(u32),
    /// The delta-modulation channel played its last byte with its interrupt
    /// enabled.
    Irq(),
}

/// The duty cycle of a pulse channel, as the register's 2-bit code.
#[derive(Debug, Clone, Copy, PartialEq, Eq, Structural)]
pub struct SquareNote {
    pub duty: u8,
}

impl SquareNote {
    pub open spec fn wf(&self) -> bool {
        self.duty <= 3
    }

    pub fn new() -> (note: Self)
        ensures
            note.duty == 0,
            note.wf(),
    {
        SquareNote { duty: 0 }
    }

    /// The part of a cycle during which the wave is high, as a phase:
    /// an eighth, a quarter, a half or three quarters.
    pub open spec fn spec_duty(self) -> u32 {
        if self.duty == 0 {
            0x2000_0000
        } else if self.duty == 1 {
            0x4000_0000
        } else if self.duty == 2 {
            0x8000_0000
        } else {
            0xC000_0000
        }
    }

    pub fn duty(&self) -> (threshold: u32)
        requires
            self.wf(),
        ensures
            threshold == self.spec_duty(),
    {
        match self.duty {
            0x00 => 0x2000_0000,
            0x01 => 0x4000_0000,
            0x02 => 0x8000_0000,
            _ => 0xC000_0000,
        }
    }
}

/// What the emulation side sends to a pulse channel.
#[derive(Debug, Clone, Copy, PartialEq, Eq, Structural)]
pub enum SquareEvent {
    Note(SquareNote),
    Enable(bool),
    Envelope(EnvelopeData),
    EnvelopeTick(),
    LengthCounter(LengthCounterData),
    LengthCounterTick(),
    ChangeFrequency(u16),
    Sweep(SweepData),
    SweepTick(),
    Reset(),
}

impl SquareEvent {
    /// Tests whether the values that the event carries are in their
    /// registers' ranges.
    pub fn check(&self) -> (ok: bool)
        ensures
            ok == self.wf(),
    {
        match self {
            SquareEvent::Note(note) => note.duty <= 3,
            SquareEvent::Envelope(data) => data.rate <= 15,
            SquareEvent::Sweep(data) => data.change_amount <= 7 && data.timer_count <= 7,
            _ => true,
        }
    }

    /// True when the values that the event carries are in their registers'
    /// ranges.
    pub open spec fn wf(&self) -> bool {
        match *self {
            SquareEvent::Note(note) => note.wf(),
            SquareEvent::Envelope(data) => data.wf(),
            SquareEvent::Sweep(data) => data.wf(),
            _ => true,
        }
    }

    /// True for an event that sets a parameter, false for a tick or a reset.
    pub open spec fn is_parameter(&self) -> bool {
        match *self {
            SquareEvent::Note(_) => true,
            SquareEvent::Enable(_) => true,
            SquareEvent::Envelope(_) => true,
            SquareEvent::LengthCounter(_) => true,
            SquareEvent::ChangeFrequency(_) => true,
            SquareEvent::Sweep(_) => true,
            _ => false,
        }
    }
}

/// The timer period of the triangle channel.
#[derive(Debug, Clone, Copy, PartialEq, Eq, Structural)]
pub struct TriangleNote {
    pub frequency: u16,
}

impl TriangleNote {
    pub fn new() -> (note: Self)
        ensures
            note.frequency == 0,
    {
        TriangleNote { frequency: 0 }
    }

    /// The divider by which the CPU clock gives the wave's frequency.
    pub open spec fn spec_divider(self) -> int {
        32 * (self.frequency + 1)
    }
}

/// What the emulation side sends to the triangle channel.
#[derive(Debug, Clone, Copy, PartialEq, Eq, Structural)]
pub enum TriangleEvent {
    Note(TriangleNote),
    Enable(bool),
    LengthCounter(LengthCounterData),
    LengthCounterTick(),
    LinearCounter(LinearCounterData),
    LinearCounterTick(),
    Reset(),
}

impl TriangleEvent {
    /// Tests whether the values that the event carries are in their
    /// registers' ranges.
    pub fn check(&self) -> (ok: bool)
        ensures
            ok == self.wf(),
    {
        match self {
            TriangleEvent::LinearCounter(data) => data.counter_for_reset <= 127,
            _ => true,
        }
    }

    pub open spec fn wf(&self) -> bool {
        match *self {
            TriangleEvent::LinearCounter(data) => data.wf(),
            _ => true,
        }
    }

    pub open spec fn is_parameter(&self) -> bool {
        match *self {
            TriangleEvent::Note(_) => true,
            TriangleEvent::Enable(_) => true,
            TriangleEvent::LengthCounter(_) => true,
            TriangleEvent::LinearCounter(_) => true,
            _ => false,
        }
    }
}

/// Which taps the noise shift register feeds back.
#[derive(Debug, Clone, Copy, PartialEq, Eq, Structural)]
pub enum NoiseKind {
    Long,
    Short,
}

/// The timer period index and the mode of the noise channel.
#[derive(Debug, Clone, Copy, PartialEq, Eq, Structural)]
pub struct NoiseNote {
    pub hz: u8,
    pub kind: NoiseKind,
}

impl NoiseNote {
    pub open spec fn wf(&self) -> bool {
        self.hz < 16
    }

    pub fn new() -> (note: Self)
        ensures
            note == (NoiseNote { hz: 0, kind: NoiseKind::Long }),
            note.wf(),
    {
        NoiseNote { hz: 0, kind: NoiseKind::Long }
    }

    pub open spec fn spec_is_long(self) -> bool {
        self.kind == NoiseKind::Long
    }

    pub fn is_long(&self) -> (long: bool)
        ensures
            long == self.spec_is_long(),
    {
        self.kind == NoiseKind::Long
    }
}

/// What the emulation side sends to the noise channel.
#[derive(Debug, Clone, Copy, PartialEq, Eq, Structural)]
pub enum NoiseEvent {
    Note(NoiseNote),
    Enable(bool),
    Envelope(EnvelopeData),
    EnvelopeTick(),
    LengthCounter(LengthCounterData),
    LengthCounterTick(),
    Reset(),
}

impl NoiseEvent {
    /// Tests whether the values that the event carries are in their
    /// registers' ranges.
    pub fn check(&self) -> (ok: bool)
        ensures
            ok == self.wf(),
    {
        match self {
            NoiseEvent::Note(note) => note.hz < 16,
            NoiseEvent::Envelope(data) => data.rate <= 15,
            _ => true,
        }
    }

    pub open spec fn wf(&self) -> bool {
        match *self {
            NoiseEvent::Note(note) => note.wf(),
            NoiseEvent::Envelope(data) => data.wf(),
            _ => true,
        }
    }

    pub open spec fn is_parameter(&self) -> bool {
        match *self {
            NoiseEvent::Note(_) => true,
            NoiseEvent::Enable(_) => true,
            NoiseEvent::Envelope(_) => true,
            NoiseEvent::LengthCounter(_) => true,
            _ => false,
        }
    }
}

} // verus!
