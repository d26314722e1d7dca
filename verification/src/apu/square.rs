//! The pulse channel synthesizer.
use vstd::prelude::*;
use crate::apu::events::{ChannelEvent, SquareEvent, SquareNote};
use crate::apu::units::{Envelope, LengthCounter, Sweep, PHASE_ONE};

verus! {

/// One pulse channel on the audio side: a phase accumulator gated by an
/// envelope, a length counter and a sweep unit.
#[derive(Debug, Clone, Copy, PartialEq, Eq, Structural)]
pub struct SquareWave {
    /// Output samples per second.
    pub freq: u32,
    /// Position in the current cycle, as a 32-bit binary fraction.
    pub phase: u32,
    pub enabled_sound: bool,
    pub note: SquareNote,
    pub envelope: Envelope,
    pub length_counter: LengthCounter,
    pub sweep: Sweep,
}

impl SquareWave {
    pub open spec fn wf(&self) -> bool {
        &&& self.freq > 0
        &&& self.note.wf()
        &&& self.envelope.wf()
        &&& self.sweep.wf()
    }

    pub open spec fn spec_new(freq: u32) -> Self {
        SquareWave {
            freq,
            phase: 0,
            enabled_sound: true,
            note: SquareNote { duty: 0 },
            envelope: Envelope::spec_new(),
            length_counter: LengthCounter::spec_new(),
            sweep: Sweep::spec_new(),
        }
    }

    /// A silent channel at power-on, for an output of `freq` samples a second.
    pub fn new(freq: u32) -> (wave: Self)
        requires
            freq > 0,
        ensures
            wave == Self::spec_new(freq),
            wave.wf(),
    {
        SquareWave {
            freq,
            phase: 0,
            enabled_sound: true,
            note: SquareNote::new(),
            envelope: Envelope::new(),
            length_counter: LengthCounter::new(),
            sweep: Sweep::new(),
        }
    }

    /// The channel after one event.
    pub open spec fn spec_handle(self, event: SquareEvent) -> Self {
        match event {
            SquareEvent::Note(note) => SquareWave { note, ..self },
            SquareEvent::Enable(b) => SquareWave { enabled_sound: b, ..self },
            SquareEvent::Envelope(data) => SquareWave {
                envelope: Envelope { data, ..self.envelope },
                ..self
            },
            SquareEvent::EnvelopeTick() => SquareWave {
                envelope: self.envelope.spec_tick(),
                ..self
            },
            SquareEvent::LengthCounter(data) => SquareWave {
                length_counter: LengthCounter { data, ..self.length_counter },
                ..self
            },
            SquareEvent::LengthCounterTick() => SquareWave {
                length_counter: self.length_counter.spec_tick(),
                ..self
            },
            SquareEvent::ChangeFrequency(f) => SquareWave {
                sweep: Sweep { frequency: f, ..self.sweep },
                ..self
            },
            SquareEvent::Sweep(data) => SquareWave { sweep: Sweep { data, ..self.sweep }, ..self },
            SquareEvent::SweepTick() => SquareWave {
                sweep: self.sweep.spec_tick(self.length_counter),
                length_counter: self.sweep.spec_tick_length(self.length_counter),
                ..self
            },
            SquareEvent::Reset() => SquareWave {
                envelope: self.envelope.spec_reset(),
                length_counter: self.length_counter.spec_reset(),
                sweep: self.sweep.spec_reset(),
                phase: 0,
                ..self
            },
        }
    }

    /// What the channel sends back on an event: the new length counter after
    /// each of its ticks, nothing otherwise.
    pub open spec fn spec_notice(self, event: SquareEvent) -> Option<ChannelEvent> {
        match event {
            SquareEvent::LengthCounterTick() => Some(
                ChannelEvent::LengthCounter(self.length_counter.spec_tick().counter as u32),
            ),
            _ => None,
        }
    }

    /// Applies one event from the emulation side.
    pub fn handle(&mut self, event: SquareEvent) -> (notice: Option<ChannelEvent>)
        requires
            old(self).wf(),
            event.wf(),
        ensures
            final(self).wf(),
            *final(self) == old(self).spec_handle(event),
            notice == old(self).spec_notice(event),
    {
        match event {
            SquareEvent::Note(note) => {
                self.note = note;
                None
            },
            SquareEvent::Enable(b) => {
                self.enabled_sound = b;
                None
            },
            SquareEvent::Envelope(data) => {
                self.envelope.data = data;
                None
            },
            SquareEvent::EnvelopeTick() => {
                self.envelope.tick();
                None
            },
            SquareEvent::LengthCounter(data) => {
                self.length_counter.data = data;
                None
            },
            SquareEvent::LengthCounterTick() => {
                self.length_counter.tick();
                Some(ChannelEvent::LengthCounter(self.length_counter.counter as u32))
            },
            SquareEvent::ChangeFrequency(f) => {
                self.sweep.frequency = f;
                None
            },
            SquareEvent::Sweep(data) => {
                self.sweep.data = data;
                None
            },
            SquareEvent::SweepTick() => {
                self.sweep.tick(&mut self.length_counter);
                None
            },
            SquareEvent::Reset() => {
                self.envelope.reset();
                self.length_counter.reset();
                self.sweep.reset();
                self.phase = 0;
                None
            },
        }
    }

    /// True when the channel puts out silence whatever its phase.
    pub open spec fn silent(self) -> bool {
        self.length_counter.spec_mute() || !self.enabled_sound
    }

    /// The current output in fifteenths of full scale: plus the envelope's
    /// level in the first part of a cycle, minus it in the rest, 0 when the
    /// length counter has run out or the channel is disabled.
    pub open spec fn spec_sample(self) -> i8 {
        if self.silent() {
            0
        } else if self.phase <= self.note.spec_duty() {
            self.envelope.level() as i8
        } else {
            (-(self.envelope.level() as int)) as i8
        }
    }

    pub fn sample(&self) -> (level: i8)
        requires
            self.wf(),
        ensures
            level == self.spec_sample(),
            -15 <= level <= 15,
    {
        if self.length_counter.mute() || !self.enabled_sound {
            return 0;
        }
        let volume: i8 = self.envelope.volume() as i8;
        if self.phase <= self.note.duty() {
            volume
        } else {
            -volume
        }
    }

    /// The channel one output sample later: the phase has moved on and
    /// wrapped at a full cycle.
    pub open spec fn spec_advance(self) -> Self {
        SquareWave {
            phase: ((self.phase + self.sweep.spec_step(self.freq)) % (PHASE_ONE as int)) as u32,
            ..self
        }
    }

    /// Returns the current output sample and moves on to the next.
    pub fn next_sample(&mut self) -> (level: i8)
        requires
            old(self).wf(),
        ensures
            final(self).wf(),
            level == old(self).spec_sample(),
            *final(self) == old(self).spec_advance(),
    {
        let level = self.sample();
        let step = self.sweep.step(self.freq);
        self.phase = ((self.phase as u64 + step) % PHASE_ONE) as u32;
        level
    }

    /// The channel after a run of events, applied in order.
    pub open spec fn spec_handle_all(self, events: Seq<SquareEvent>) -> Self
        decreases events.len(),
    {
        if events.len() == 0 {
            self
        } else {
            self.spec_handle_all(events.drop_last()).spec_handle(events.last())
        }
    }

    /// What the channel sends back over a run of events, in order.
    pub open spec fn spec_notices(self, events: Seq<SquareEvent>) -> Seq<ChannelEvent>
        decreases events.len(),
    {
        if events.len() == 0 {
            Seq::empty()
        } else {
            let before = self.spec_handle_all(events.drop_last());
            let sent = self.spec_notices(events.drop_last());
            match before.spec_notice(events.last()) {
                Some(notice) => sent.push(notice),
                None => sent,
            }
        }
    }

    /// The channel `n` output samples later.
    pub open spec fn spec_advance_n(self, n: nat) -> Self
        decreases n,
    {
        if n == 0 {
            self
        } else {
            self.spec_advance_n((n - 1) as nat).spec_advance()
        }
    }

    /// The next `n` output samples.
    pub open spec fn spec_render(self, n: nat) -> Seq<i8>
        decreases n,
    {
        if n == 0 {
            Seq::empty()
        } else {
            self.spec_render((n - 1) as nat).push(self.spec_advance_n((n - 1) as nat).spec_sample())
        }
    }

    /// One call of the audio device: applies the pending events in their
    /// order of arrival, then renders `samples` output samples. Returns the
    /// samples and the notifications for the emulation side.
    pub fn callback(&mut self, events: &Vec<SquareEvent>, samples: usize) -> (result: (
        Vec<i8>,
        Vec<ChannelEvent>,
    ))
        requires
            old(self).wf(),
            forall|i: int| 0 <= i < events@.len() ==> (#[trigger] events@[i]).wf(),
        ensures
            final(self).wf(),
            *final(self) == old(self).spec_handle_all(events@).spec_advance_n(samples as nat),
            result.0@ == old(self).spec_handle_all(events@).spec_render(samples as nat),
            result.1@ == old(self).spec_notices(events@),
    {
        let mut notices: Vec<ChannelEvent> = Vec::new();
        let mut i: usize = 0;
        while i < events.len()
            invariant
                0 <= i <= events@.len(),
                self.wf(),
                forall|k: int| 0 <= k < events@.len() ==> (#[trigger] events@[k]).wf(),
                *self == old(self).spec_handle_all(events@.take(i as int)),
                notices@ == old(self).spec_notices(events@.take(i as int)),
            decreases events@.len() - i,
        {
            proof {
                assert(events@.take(i + 1).drop_last() =~= events@.take(i as int));
            }
            match self.handle(events[i]) {
                Some(notice) => notices.push(notice),
                None => {},
            }
            i += 1;
        }
        proof {
            assert(events@.take(i as int) =~= events@);
        }
        let ghost started = *self;
        let mut out: Vec<i8> = Vec::new();
        let mut n: usize = 0;
        while n < samples
            invariant
                0 <= n <= samples,
                self.wf(),
                *self == started.spec_advance_n(n as nat),
                out@ == started.spec_render(n as nat),
            decreases samples - n,
        {
            let level = self.next_sample();
            out.push(level);
            n += 1;
        }
        (out, notices)
    }
}

/// Setting a parameter twice in a row leaves the channel as setting it
/// once does, and so gives the same output sample.
pub proof fn lemma_square_parameter_idempotent(wave: SquareWave, event: SquareEvent)
    requires
        event.is_parameter(),
    ensures
        wave.spec_handle(event).spec_handle(event) == wave.spec_handle(event),
        wave.spec_handle(event).spec_handle(event).spec_sample() == wave.spec_handle(
            event,
        ).spec_sample(),
{
}

} // verus!
