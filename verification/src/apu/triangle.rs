//! The triangle channel synthesizer.
use vstd::prelude::*;
use crate::apu::events::{ChannelEvent, TriangleEvent, TriangleNote};
use crate::apu::units::{
    phase_increment,
    spec_phase_increment,
    LengthCounter,
    LinearCounter,
    PHASE_ONE,
};

verus! {

/// Full scale of the triangle channel's output samples.
pub const TRIANGLE_FULL_SCALE: i32 = 0x4000_0000;

/// The triangle channel on the audio side: a phase accumulator that is
/// folded into a ramp, gated by a length counter and a linear counter.
#[derive(Debug, Clone, Copy, PartialEq, Eq, Structural)]
pub struct TriangleWave {
    /// Output samples per second.
    pub freq: u32,
    /// Position in the current cycle, as a 32-bit binary fraction.
    pub phase: u32,
    pub enabled_sound: bool,
    pub note: TriangleNote,
    pub length_counter: LengthCounter,
    pub linear_counter: LinearCounter,
}

impl TriangleWave {
    pub open spec fn wf(&self) -> bool {
        self.freq > 0 && self.linear_counter.wf()
    }

    pub open spec fn spec_new(freq: u32) -> Self {
        TriangleWave {
            freq,
            phase: 0,
            enabled_sound: true,
            note: TriangleNote { frequency: 0 },
            length_counter: LengthCounter::spec_new(),
            linear_counter: LinearCounter::spec_new(),
        }
    }

    /// A silent channel at power-on, for an output of `freq` samples a second.
    pub fn new(freq: u32) -> (wave: Self)
        requires
            freq > 0,
        ensures
            wave == Self::spec_new(freq),
            wave.wf(),
    {
        TriangleWave {
            freq,
            phase: 0,
            enabled_sound: true,
            note: TriangleNote::new(),
            length_counter: LengthCounter::new(),
            linear_counter: LinearCounter::new(),
        }
    }

    /// The channel after one event.
    pub open spec fn spec_handle(self, event: TriangleEvent) -> Self {
        match event {
            TriangleEvent::Note(note) => TriangleWave { note, ..self },
            TriangleEvent::Enable(b) => TriangleWave { enabled_sound: b, ..self },
            TriangleEvent::LengthCounter(data) => TriangleWave {
                length_counter: LengthCounter { data, ..self.length_counter },
                ..self
            },
            TriangleEvent::LengthCounterTick() => TriangleWave {
                length_counter: self.length_counter.spec_tick(),
                ..self
            },
            TriangleEvent::LinearCounter(data) => TriangleWave {
                linear_counter: (LinearCounter { data, ..self.linear_counter }).spec_reset(),
                ..self
            },
            TriangleEvent::LinearCounterTick() => TriangleWave {
                linear_counter: self.linear_counter.spec_tick(),
                ..self
            },
            TriangleEvent::Reset() => TriangleWave {
                length_counter: self.length_counter.spec_reset(),
                linear_counter: self.linear_counter.spec_reset(),
                phase: 0,
                ..self
            },
        }
    }

    /// What the channel sends back on an event: the new length counter after
    /// each of its ticks, nothing otherwise.
    pub open spec fn spec_notice(self, event: TriangleEvent) -> Option<ChannelEvent> {
        match event {
            TriangleEvent::LengthCounterTick() => Some(
                ChannelEvent::LengthCounter(self.length_counter.spec_tick().counter as u32),
            ),
            _ => None,
        }
    }

    /// Applies one event from the emulation side.
    pub fn handle(&mut self, event: TriangleEvent) -> (notice: Option<ChannelEvent>)
        requires
            old(self).wf(),
            event.wf(),
        ensures
            final(self).wf(),
            *final(self) == old(self).spec_handle(event),
            notice == old(self).spec_notice(event),
    {
        match event {
            TriangleEvent::Note(note) => {
                self.note = note;
                None
            },
            TriangleEvent::Enable(b) => {
                self.enabled_sound = b;
                None
            },
            TriangleEvent::LengthCounter(data) => {
                self.length_counter.data = data;
                None
            },
            TriangleEvent::LengthCounterTick() => {
                self.length_counter.tick();
                Some(ChannelEvent::LengthCounter(self.length_counter.counter as u32))
            },
            TriangleEvent::LinearCounter(data) => {
                self.linear_counter.data = data;
                self.linear_counter.reset();
                None
            },
            TriangleEvent::LinearCounterTick() => {
                self.linear_counter.tick();
                None
            },
            TriangleEvent::Reset() => {
                self.length_counter.reset();
                self.linear_counter.reset();
                self.phase = 0;
                None
            },
        }
    }

    /// True when the channel puts out silence whatever its phase: either
    /// counter has run out, or the channel is disabled.
    pub open spec fn silent(self) -> bool {
        self.length_counter.spec_mute() || self.linear_counter.spec_mute() || !self.enabled_sound
    }

    /// The phase folded at the half cycle: it rises to a half and falls back.
    pub open spec fn folded(self) -> int {
        if self.phase <= 0x8000_0000 {
            self.phase as int
        } else {
            PHASE_ONE - self.phase
        }
    }

    /// The current output, where `TRIANGLE_FULL_SCALE` is full scale: a
    /// symmetric ramp from minus full scale at the start of a cycle to plus
    /// full scale at its middle and back, or 0 when the channel is silent.
    pub open spec fn spec_sample(self) -> i32 {
        if self.silent() {
            0
        } else {
            (self.folded() - TRIANGLE_FULL_SCALE) as i32
        }
    }

    pub fn sample(&self) -> (level: i32)
        ensures
            level == self.spec_sample(),
            -TRIANGLE_FULL_SCALE <= level <= TRIANGLE_FULL_SCALE,
    {
        if self.length_counter.mute() || self.linear_counter.mute() || !self.enabled_sound {
            return 0;
        }
        let folded: i64 = if self.phase <= 0x8000_0000 {
            self.phase as i64
        } else {
            PHASE_ONE as i64 - self.phase as i64
        };
        (folded - TRIANGLE_FULL_SCALE as i64) as i32
    }

    /// The fraction of a cycle that the wave moves in one output sample.
    pub open spec fn spec_step(self) -> int {
        spec_phase_increment(self.note.spec_divider() as u32, self.freq)
    }

    /// The channel one output sample later: the phase has moved on and
    /// wrapped at a full cycle.
    pub open spec fn spec_advance(self) -> Self {
        TriangleWave {
            phase: ((self.phase + self.spec_step()) % (PHASE_ONE as int)) as u32,
            ..self
        }
    }

    /// Returns the current output sample and moves on to the next.
    pub fn next_sample(&mut self) -> (level: i32)
        requires
            old(self).wf(),
        ensures
            final(self).wf(),
            level == old(self).spec_sample(),
            *final(self) == old(self).spec_advance(),
    {
        let level = self.sample();
        let step = phase_increment(32 * (self.note.frequency as u32 + 1), self.freq);
        self.phase = ((self.phase as u64 + step) % PHASE_ONE) as u32;
        level
    }

    /// The channel after a run of events, applied in order.
    pub open spec fn spec_handle_all(self, events: Seq<TriangleEvent>) -> Self
        decreases events.len(),
    {
        if events.len() == 0 {
            self
        } else {
            self.spec_handle_all(events.drop_last()).spec_handle(events.last())
        }
    }

    /// What the channel sends back over a run of events, in order.
    pub open spec fn spec_notices(self, events: Seq<TriangleEvent>) -> Seq<ChannelEvent>
        decreases events.len(),
    {
        if events.len() == 0 {
            Seq::empty()
        } else {
            let before = self.spec_handle_all(events.drop_last());
            let sent = self.spec_notices(events.drop_last());
            match before.spec_notice(events.last()) {
                Some(notice) => sent.push(notice),
                None => sent,
            }
        }
    }

    /// The channel `n` output samples later.
    pub open spec fn spec_advance_n(self, n: nat) -> Self
        decreases n,
    {
        if n == 0 {
            self
        } else {
            self.spec_advance_n((n - 1) as nat).spec_advance()
        }
    }

    /// The next `n` output samples.
    pub open spec fn spec_render(self, n: nat) -> Seq<i32>
        decreases n,
    {
        if n == 0 {
            Seq::empty()
        } else {
            self.spec_render((n - 1) as nat).push(self.spec_advance_n((n - 1) as nat).spec_sample())
        }
    }

    /// One call of the audio device: applies the pending events in their
    /// order of arrival, then renders `samples` output samples. Returns the
    /// samples and the notifications for the emulation side.
    pub fn callback(&mut self, events: &Vec<TriangleEvent>, samples: usize) -> (result: (
        Vec<i32>,
        Vec<ChannelEvent>,
    ))
        requires
            old(self).wf(),
            forall|i: int| 0 <= i < events@.len() ==> (#[trigger] events@[i]).wf(),
        ensures
            final(self).wf(),
            *final(self) == old(self).spec_handle_all(events@).spec_advance_n(samples as nat),
            result.0@ == old(self).spec_handle_all(events@).spec_render(samples as nat),
            result.1@ == old(self).spec_notices(events@),
    {
        let mut notices: Vec<ChannelEvent> = Vec::new();
        let mut i: usize = 0;
        while i < events.len()
            invariant
                0 <= i <= events@.len(),
                self.wf(),
                forall|k: int| 0 <= k < events@.len() ==> (#[trigger] events@[k]).wf(),
                *self == old(self).spec_handle_all(events@.take(i as int)),
                notices@ == old(self).spec_notices(events@.take(i as int)),
            decreases events@.len() - i,
        {
            proof {
                assert(events@.take(i + 1).drop_last() =~= events@.take(i as int));
            }
            match self.handle(events[i]) {
                Some(notice) => notices.push(notice),
                None => {},
            }
            i += 1;
        }
        proof {
            assert(events@.take(i as int) =~= events@);
        }
        let ghost started = *self;
        let mut out: Vec<i32> = Vec::new();
        let mut n: usize = 0;
        while n < samples
            invariant
                0 <= n <= samples,
                self.wf(),
                *self == started.spec_advance_n(n as nat),
                out@ == started.spec_render(n as nat),
            decreases samples - n,
        {
            let level = self.next_sample();
            out.push(level);
            n += 1;
        }
        (out, notices)
    }
}

/// Setting a parameter twice in a row leaves the channel as setting it
/// once does, and so gives the same output sample.
pub proof fn lemma_triangle_parameter_idempotent(wave: TriangleWave, event: TriangleEvent)
    requires
        event.is_parameter(),
    ensures
        wave.spec_handle(event).spec_handle(event) == wave.spec_handle(event),
        wave.spec_handle(event).spec_handle(event).spec_sample() == wave.spec_handle(
            event,
        ).spec_sample(),
{
}

} // verus!
