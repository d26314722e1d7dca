//! The noise channel synthesizer.
use vstd::prelude::*;
use crate::apu::events::{ChannelEvent, NoiseEvent, NoiseNote, NoiseKind};
use crate::apu::units::{
    lemma_lfsr_steps_valid,
    lfsr_steps,
    noise_period,
    noise_table,
    phase_increment,
    spec_phase_increment,
    Envelope,
    LengthCounter,
    NoiseRandom,
    PHASE_ONE,
};

verus! {

/// The noise channel on the audio side: a phase accumulator that steps a
/// shift register each time it wraps, gated by an envelope and a length
/// counter.
#[derive(Debug, Clone, Copy, PartialEq, Eq, Structural)]
pub struct NoiseWave {
    /// Output samples per second.
    pub freq: u32,
    /// Position in the current timer period, as a 32-bit binary fraction.
    pub phase: u32,
    pub random: NoiseRandom,
    pub enabled_sound: bool,
    pub envelope: Envelope,
    pub note: NoiseNote,
    pub length_counter: LengthCounter,
    /// Bit 0 of the shift register after its last step; the channel sounds
    /// while it is clear.
    pub is_sound: bool,
}

impl NoiseWave {
    pub open spec fn wf(&self) -> bool {
        &&& self.freq > 0
        &&& self.random.wf()
        &&& self.envelope.wf()
        &&& self.note.wf()
    }

    pub open spec fn spec_new(freq: u32) -> Self {
        NoiseWave {
            freq,
            phase: 0,
            random: NoiseRandom { value: 1 },
            enabled_sound: true,
            envelope: Envelope::spec_new(),
            note: NoiseNote { hz: 0, kind: NoiseKind::Long },
            length_counter: LengthCounter::spec_new(),
            is_sound: false,
        }
    }

    /// A silent channel at power-on, for an output of `freq` samples a second.
    pub fn new(freq: u32) -> (wave: Self)
        requires
            freq > 0,
        ensures
            wave == Self::spec_new(freq),
            wave.wf(),
    {
        NoiseWave {
            freq,
            phase: 0,
            random: NoiseRandom::new(),
            enabled_sound: true,
            envelope: Envelope::new(),
            note: NoiseNote::new(),
            length_counter: LengthCounter::new(),
            is_sound: false,
        }
    }

    /// The channel after one event.
    pub open spec fn spec_handle(self, event: NoiseEvent) -> Self {
        match event {
            NoiseEvent::Note(note) => NoiseWave { note, ..self },
            NoiseEvent::Enable(b) => NoiseWave { enabled_sound: b, ..self },
            NoiseEvent::Envelope(data) => NoiseWave {
                envelope: Envelope { data, ..self.envelope },
                ..self
            },
            NoiseEvent::EnvelopeTick() => NoiseWave { envelope: self.envelope.spec_tick(), ..self },
            NoiseEvent::LengthCounter(data) => NoiseWave {
                length_counter: LengthCounter { data, ..self.length_counter },
                ..self
            },
            NoiseEvent::LengthCounterTick() => NoiseWave {
                length_counter: self.length_counter.spec_tick(),
                ..self
            },
            NoiseEvent::Reset() => NoiseWave {
                envelope: self.envelope.spec_reset(),
                length_counter: self.length_counter.spec_reset(),
                phase: 0,
                ..self
            },
        }
    }

    /// What the channel sends back on an event: the new length counter after
    /// each of its ticks, nothing otherwise.
    pub open spec fn spec_notice(self, event: NoiseEvent) -> Option<ChannelEvent> {
        match event {
            NoiseEvent::LengthCounterTick() => Some(
                ChannelEvent::LengthCounter(self.length_counter.spec_tick().counter as u32),
            ),
            _ => None,
        }
    }

    /// Applies one event from the emulation side.
    pub fn handle(&mut self, event: NoiseEvent) -> (notice: Option<ChannelEvent>)
        requires
            old(self).wf(),
            event.wf(),
        ensures
            final(self).wf(),
            *final(self) == old(self).spec_handle(event),
            notice == old(self).spec_notice(event),
    {
        match event {
            NoiseEvent::Note(note) => {
                self.note = note;
                None
            },
            NoiseEvent::Enable(b) => {
                self.enabled_sound = b;
                None
            },
            NoiseEvent::Envelope(data) => {
                self.envelope.data = data;
                None
            },
            NoiseEvent::EnvelopeTick() => {
                self.envelope.tick();
                None
            },
            NoiseEvent::LengthCounter(data) => {
                self.length_counter.data = data;
                None
            },
            NoiseEvent::LengthCounterTick() => {
                self.length_counter.tick();
                Some(ChannelEvent::LengthCounter(self.length_counter.counter as u32))
            },
            NoiseEvent::Reset() => {
                self.envelope.reset();
                self.length_counter.reset();
                self.phase = 0;
                None
            },
        }
    }

    /// True when the channel puts out silence whatever the shift register
    /// holds.
    pub open spec fn silent(self) -> bool {
        self.length_counter.spec_mute() || !self.enabled_sound
    }

    /// The current output in fifteenths of full scale: the envelope's level
    /// while the shift register's bit is clear, 0 while it is set or the
    /// channel is silent. The output is never negative.
    pub open spec fn spec_sample(self) -> i8 {
        if self.silent() || self.is_sound {
            0
        } else {
            self.envelope.level() as i8
        }
    }

    pub fn sample(&self) -> (level: i8)
        requires
            self.wf(),
        ensures
            level == self.spec_sample(),
            0 <= level <= 15,
    {
        if self.length_counter.mute() || !self.enabled_sound || self.is_sound {
            return 0;
        }
        self.envelope.volume() as i8
    }

    /// The fraction of a timer period that passes in one output sample; it
    /// exceeds one where the timer is faster than the output.
    pub open spec fn spec_step(self) -> int {
        spec_phase_increment(noise_table()[self.note.hz as int] as u32, self.freq)
    }

    /// How often the timer runs out during the next output sample.
    pub open spec fn spec_wraps(self) -> nat {
        ((self.phase + self.spec_step()) / (PHASE_ONE as int)) as nat
    }

    /// The channel one output sample later: the phase has moved on, and the
    /// shift register has made one step for each time the phase wrapped.
    pub open spec fn spec_advance(self) -> Self {
        let value = lfsr_steps(self.random.value, self.note.spec_is_long(), self.spec_wraps());
        NoiseWave {
            phase: ((self.phase + self.spec_step()) % (PHASE_ONE as int)) as u32,
            random: NoiseRandom { value },
            is_sound: if self.spec_wraps() == 0 {
                self.is_sound
            } else {
                value & 0x01 != 0
            },
            ..self
        }
    }

    /// Returns the current output sample and moves on to the next.
    pub fn next_sample(&mut self) -> (level: i8)
        requires
            old(self).wf(),
        ensures
            final(self).wf(),
            level == old(self).spec_sample(),
            *final(self) == old(self).spec_advance(),
    {
        let level = self.sample();
        let step = phase_increment(noise_period(self.note.hz) as u32, self.freq);
        let total: u64 = self.phase as u64 + step;
        let wraps: u64 = total / PHASE_ONE;
        let is_long = self.note.is_long();
        self.phase = (total % PHASE_ONE) as u32;
        let mut k: u64 = 0;
        while k < wraps
            invariant
                0 <= k <= wraps,
                old(self).random.wf(),
                self.random.wf(),
                self.random.value == lfsr_steps(old(self).random.value, is_long, k as nat),
                self.is_sound == (if k == 0 {
                    old(self).is_sound
                } else {
                    self.random.value & 0x01 != 0
                }),
                self.freq == old(self).freq,
                self.phase == (total % PHASE_ONE) as u32,
                self.enabled_sound == old(self).enabled_sound,
                self.envelope == old(self).envelope,
                self.note == old(self).note,
                self.length_counter == old(self).length_counter,
            decreases wraps - k,
        {
            self.is_sound = self.random.next(is_long);
            k += 1;
        }
        level
    }

    /// The channel after a run of events, applied in order.
    pub open spec fn spec_handle_all(self, events: Seq<NoiseEvent>) -> Self
        decreases events.len(),
    {
        if events.len() == 0 {
            self
        } else {
            self.spec_handle_all(events.drop_last()).spec_handle(events.last())
        }
    }

    /// What the channel sends back over a run of events, in order.
    pub open spec fn spec_notices(self, events: Seq<NoiseEvent>) -> Seq<ChannelEvent>
        decreases events.len(),
    {
        if events.len() == 0 {
            Seq::empty()
        } else {
            let before = self.spec_handle_all(events.drop_last());
            let sent = self.spec_notices(events.drop_last());
            match before.spec_notice(events.last()) {
                Some(notice) => sent.push(notice),
                None => sent,
            }
        }
    }

    /// The channel `n` output samples later.
    pub open spec fn spec_advance_n(self, n: nat) -> Self
        decreases n,
    {
        if n == 0 {
            self
        } else {
            self.spec_advance_n((n - 1) as nat).spec_advance()
        }
    }

    /// The next `n` output samples.
    pub open spec fn spec_render(self, n: nat) -> Seq<i8>
        decreases n,
    {
        if n == 0 {
            Seq::empty()
        } else {
            self.spec_render((n - 1) as nat).push(self.spec_advance_n((n - 1) as nat).spec_sample())
        }
    }

    /// One call of the audio device: applies the pending events in their
    /// order of arrival, then renders `samples` output samples. Returns the
    /// samples and the notifications for the emulation side.
    pub fn callback(&mut self, events: &Vec<NoiseEvent>, samples: usize) -> (result: (
        Vec<i8>,
        Vec<ChannelEvent>,
    ))
        requires
            old(self).wf(),
            forall|i: int| 0 <= i < events@.len() ==> (#[trigger] events@[i]).wf(),
        ensures
            final(self).wf(),
            *final(self) == old(self).spec_handle_all(events@).spec_advance_n(samples as nat),
            result.0@ == old(self).spec_handle_all(events@).spec_render(samples as nat),
            result.1@ == old(self).spec_notices(events@),
    {
        let mut notices: Vec<ChannelEvent> = Vec::new();
        let mut i: usize = 0;
        while i < events.len()
            invariant
                0 <= i <= events@.len(),
                self.wf(),
                forall|k: int| 0 <= k < events@.len() ==> (#[trigger] events@[k]).wf(),
                *self == old(self).spec_handle_all(events@.take(i as int)),
                notices@ == old(self).spec_notices(events@.take(i as int)),
            decreases events@.len() - i,
        {
            proof {
                assert(events@.take(i + 1).drop_last() =~= events@.take(i as int));
            }
            match self.handle(events[i]) {
                Some(notice) => notices.push(notice),
                None => {},
            }
            i += 1;
        }
        proof {
            assert(events@.take(i as int) =~= events@);
        }
        let ghost started = *self;
        let mut out: Vec<i8> = Vec::new();
        let mut n: usize = 0;
        while n < samples
            invariant
                0 <= n <= samples,
                self.wf(),
                *self == started.spec_advance_n(n as nat),
                out@ == started.spec_render(n as nat),
            decreases samples - n,
        {
            let level = self.next_sample();
            out.push(level);
            n += 1;
        }
        (out, notices)
    }
}

/// Whatever events arrive and however long the channel plays, the shift
/// register never reaches its all-zero dead state.
pub proof fn lemma_noise_register_stays_alive(wave: NoiseWave, n: nat)
    requires
        wave.wf(),
    ensures
        wave.spec_advance_n(n).random.wf(),
        wave.spec_advance_n(n).note == wave.note,
    decreases n,
{
    if n > 0 {
        lemma_noise_register_stays_alive(wave, (n - 1) as nat);
        let before = wave.spec_advance_n((n - 1) as nat);
        lemma_lfsr_steps_valid(before.random.value, before.note.spec_is_long(), before.spec_wraps());
    }
}

/// Setting a parameter twice in a row leaves the channel as setting it
/// once does, and so gives the same output sample.
pub proof fn lemma_noise_parameter_idempotent(wave: NoiseWave, event: NoiseEvent)
    requires
        event.is_parameter(),
    ensures
        wave.spec_handle(event).spec_handle(event) == wave.spec_handle(event),
        wave.spec_handle(event).spec_handle(event).spec_sample() == wave.spec_handle(
            event,
        ).spec_sample(),
{
}

} // verus!
