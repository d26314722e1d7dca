//! The small state machines shared by the channel synthesizers: envelope,
//! sweep, length counter, linear counter and the noise shift register,
//! together with the lookup tables and the fixed-point phase arithmetic.
use vstd::prelude::*;

verus! {

/// Twice the CPU clock in hertz; the clock itself runs at 1 789 772.5 Hz.
pub const CPU_CLOCK_X2: u64 = 3_579_545;

/// One full turn of a phase accumulator. A phase is a 32-bit binary
/// fraction of a waveform cycle.
pub const PHASE_ONE: u64 = 0x1_0000_0000;

/// CPU cycles between two steps of the frame sequencer.
pub const FRAME_INTERVAL: usize = 7457;

pub const LENGTH_COUNTER_TABLE: [u8; 32] = [
    0x0A, 0xFE, 0x14, 0x02, 0x28, 0x04, 0x50, 0x06, 0xA0, 0x08, 0x3C, 0x0A, 0x0E, 0x0C, 0x1A, 0x0E,
    0x0C, 0x10, 0x18, 0x12, 0x30, 0x14, 0x60, 0x16, 0xC0, 0x18, 0x48, 0x1A, 0x10, 0x1C, 0x20, 0x1E,
];

pub const NOISE_TABLE: [u16; 16] = [
    0x0004, 0x0008, 0x0010, 0x0020, 0x0040, 0x0060, 0x0080, 0x00A0, 0x00CA, 0x00FE, 0x017C, 0x01FC,
    0x02FA, 0x03F8, 0x07F2, 0x0FE4,
];

pub const DMC_FREQUENCY_TABLE: [u16; 16] = [
    0x01AC, 0x017C, 0x0154, 0x0140, 0x011E, 0x00FE, 0x00E2, 0x00D6, 0x00BE, 0x00A0, 0x008E, 0x0080,
    0x006A, 0x0054, 0x0048, 0x0036,
];

/// The hardware's length-counter load values, by 5-bit load index.
pub open spec fn length_table() -> Seq<u8> {
    seq![
        0x0Au8, 0xFEu8, 0x14u8, 0x02u8, 0x28u8, 0x04u8, 0x50u8, 0x06u8,
        0xA0u8, 0x08u8, 0x3Cu8, 0x0Au8, 0x0Eu8, 0x0Cu8, 0x1Au8, 0x0Eu8,
        0x0Cu8, 0x10u8, 0x18u8, 0x12u8, 0x30u8, 0x14u8, 0x60u8, 0x16u8,
        0xC0u8, 0x18u8, 0x48u8, 0x1Au8, 0x10u8, 0x1Cu8, 0x20u8, 0x1Eu8,
    ]
}

/// The noise channel's timer periods in CPU cycles, by 4-bit period index.
pub open spec fn noise_table() -> Seq<u16> {
    seq![
        0x0004u16, 0x0008u16, 0x0010u16, 0x0020u16, 0x0040u16, 0x0060u16, 0x0080u16, 0x00A0u16,
        0x00CAu16, 0x00FEu16, 0x017Cu16, 0x01FCu16, 0x02FAu16, 0x03F8u16, 0x07F2u16, 0x0FE4u16,
    ]
}

/// The delta-modulation channel's bit periods in CPU cycles, by 4-bit rate
/// index.
pub open spec fn dmc_table() -> Seq<u16> {
    seq![
        0x01ACu16, 0x017Cu16, 0x0154u16, 0x0140u16, 0x011Eu16, 0x00FEu16, 0x00E2u16, 0x00D6u16,
        0x00BEu16, 0x00A0u16, 0x008Eu16, 0x0080u16, 0x006Au16, 0x0054u16, 0x0048u16, 0x0036u16,
    ]
}

/// The length-counter load value for a load index.
pub fn length_counter_load(index: u8) -> (value: u8)
    requires
        index < 32,
    ensures
        value == length_table()[index as int],
        2 <= value <= 0xFE,
{
    LENGTH_COUNTER_TABLE[index as usize]
}

/// The noise timer period for a period index.
pub fn noise_period(index: u8) -> (period: u16)
    requires
        index < 16,
    ensures
        period == noise_table()[index as int],
        4 <= period <= 0x0FE4,
{
    NOISE_TABLE[index as usize]
}

/// The delta-modulation bit period for a rate index.
pub fn dmc_period(index: u8) -> (period: u16)
    requires
        index < 16,
    ensures
        period == dmc_table()[index as int],
        0x36 <= period <= 0x01AC,
{
    DMC_FREQUENCY_TABLE[index as usize]
}

/// How far a phase accumulator moves in one output sample, as a 32-bit
/// binary fraction of a cycle that may exceed one turn: the waveform runs at
/// `clock / divider` hertz and is sampled `sample_rate` times a second.
pub open spec fn spec_phase_increment(divider: u32, sample_rate: u32) -> int {
    (CPU_CLOCK_X2 as int * 0x8000_0000) / (divider as int * sample_rate as int)
}

pub fn phase_increment(divider: u32, sample_rate: u32) -> (step: u64)
    requires
        divider > 0,
        sample_rate > 0,
    ensures
        step == spec_phase_increment(divider, sample_rate),
        step <= CPU_CLOCK_X2 * 0x8000_0000,
{
    let denominator: u64 = {
        assert(divider as int * sample_rate as int <= 0xFFFF_FFFF * 0xFFFF_FFFF
            && divider as int * sample_rate as int >= 1) by (nonlinear_arith)
            requires
                0 < divider <= 0xFFFF_FFFF,
                0 < sample_rate <= 0xFFFF_FFFF,
        ;
        divider as u64 * sample_rate as u64
    };
    let numerator: u64 = CPU_CLOCK_X2 * 0x8000_0000;
    assert(numerator as int / denominator as int <= numerator as int) by (nonlinear_arith)
        requires
            denominator >= 1,
            numerator >= 0,
    ;
    numerator / denominator
}

/// The envelope parameters that a register write carries.
#[derive(Debug, Clone, Copy, PartialEq, Eq, Structural)]
pub struct EnvelopeData {
    /// Divider period, and the output level in constant-volume mode.
    pub rate: u8,
    /// True when the envelope decays; false selects constant volume.
    pub enabled_sound: bool,
    pub loop_flag: bool,
}

impl EnvelopeData {
    pub open spec fn wf(&self) -> bool {
        self.rate <= 15
    }

    pub fn new(rate: u8, enabled_sound: bool, loop_flag: bool) -> (data: Self)
        requires
            rate <= 15,
        ensures
            data == (EnvelopeData { rate, enabled_sound, loop_flag }),
            data.wf(),
    {
        EnvelopeData { rate, enabled_sound, loop_flag }
    }
}

/// Decaying or constant volume generator of the pulse and noise channels.
#[derive(Debug, Clone, Copy, PartialEq, Eq, Structural)]
pub struct Envelope {
    pub data: EnvelopeData,
    /// The decay level, 15 down to 0.
    pub counter: u8,
    /// Quarter-frame ticks left until the decay level moves.
    pub division_period: u8,
}

impl Envelope {
    pub open spec fn wf(&self) -> bool {
        &&& self.data.wf()
        &&& self.counter <= 15
        &&& 1 <= self.division_period <= 16
    }

    pub open spec fn spec_new() -> Self {
        Envelope {
            data: EnvelopeData { rate: 0, enabled_sound: false, loop_flag: false },
            counter: 0x0F,
            division_period: 1,
        }
    }

    pub fn new() -> (envelope: Self)
        ensures
            envelope == Self::spec_new(),
            envelope.wf(),
    {
        Envelope { data: EnvelopeData::new(0, false, false), counter: 0x0F, division_period: 1 }
    }

    /// True when the next tick moves the decay level.
    pub open spec fn fires(self) -> bool {
        self.division_period == 1
    }

    /// The state after one quarter-frame tick.
    pub open spec fn spec_tick(self) -> Self {
        if !self.fires() {
            Envelope { division_period: (self.division_period - 1) as u8, ..self }
        } else {
            Envelope {
                counter: if self.counter != 0 {
                    (self.counter - 1) as u8
                } else if self.data.loop_flag {
                    0x0F
                } else {
                    0
                },
                division_period: (self.data.rate + 1) as u8,
                ..self
            }
        }
    }

    /// The state after `n` quarter-frame ticks.
    pub open spec fn spec_ticks(self, n: nat) -> Self
        decreases n,
    {
        if n == 0 {
            self
        } else {
            self.spec_tick().spec_ticks((n - 1) as nat)
        }
    }

    pub fn tick(&mut self)
        requires
            old(self).wf(),
        ensures
            final(self).wf(),
            *final(self) == old(self).spec_tick(),
            final(self).data == old(self).data,
            old(self).counter > 0 ==> old(self).counter - 1 <= final(self).counter <= old(self).counter,
            old(self).counter == 0 && !old(self).data.loop_flag ==> final(self).counter == 0,
            old(self).counter == 0 && old(self).data.loop_flag ==> final(self).counter == (if old(self).fires() {
                0x0Fu8
            } else {
                0u8
            }),
    {
        self.division_period -= 1;
        if self.division_period != 0 {
            return ;
        }
        if self.counter != 0 {
            self.counter -= 1;
        } else if self.data.loop_flag {
            self.reset();
        }
        self.division_period = self.data.rate + 1;
    }

    /// The output level in fifteenths of full scale.
    pub open spec fn level(self) -> u8 {
        if self.data.enabled_sound {
            self.counter
        } else {
            self.data.rate
        }
    }

    pub fn volume(&self) -> (level: u8)
        requires
            self.wf(),
        ensures
            level == self.level(),
            level <= 15,
    {
        if self.data.enabled_sound {
            self.counter
        } else {
            self.data.rate
        }
    }

    pub open spec fn spec_reset(self) -> Self {
        Envelope { counter: 0x0F, division_period: (self.data.rate + 1) as u8, ..self }
    }

    pub fn reset(&mut self)
        requires
            old(self).data.wf(),
        ensures
            *final(self) == old(self).spec_reset(),
            final(self).wf(),
    {
        self.counter = 0x0F;
        self.division_period = self.data.rate + 1;
    }
}

/// While the envelope does not loop, no number of ticks raises the decay
/// level, and once it is 0 it stays 0.
pub proof fn lemma_envelope_decays(envelope: Envelope, n: nat)
    requires
        envelope.wf(),
        !envelope.data.loop_flag,
    ensures
        envelope.spec_ticks(n).wf(),
        envelope.spec_ticks(n).data == envelope.data,
        envelope.spec_ticks(n).counter <= envelope.counter,
        envelope.counter == 0 ==> envelope.spec_ticks(n).counter == 0,
    decreases n,
{
    if n > 0 {
        lemma_envelope_decays(envelope.spec_tick(), (n - 1) as nat);
    }
}

/// A looping envelope that has decayed to 0 is back at 15 as soon as its
/// divider fires, which takes as many ticks as the divider still holds.
pub proof fn lemma_envelope_loops(envelope: Envelope)
    requires
        envelope.wf(),
        envelope.data.loop_flag,
        envelope.counter == 0,
    ensures
        envelope.spec_ticks(envelope.division_period as nat).counter == 15,
        forall|k: nat|
            k < envelope.division_period ==> (#[trigger] envelope.spec_ticks(k)).counter == 0,
    decreases envelope.division_period,
{
    reveal_with_fuel(Envelope::spec_ticks, 2);
    if envelope.division_period > 1 {
        let next = envelope.spec_tick();
        lemma_envelope_loops(next);
        assert forall|k: nat| k < envelope.division_period implies (#[trigger] envelope.spec_ticks(
            k,
        )).counter == 0 by {
            if k > 0 {
                assert(next.spec_ticks((k - 1) as nat).counter == 0);
            }
        }
    } else {
        assert forall|k: nat| k < envelope.division_period implies (#[trigger] envelope.spec_ticks(
            k,
        )).counter == 0 by {
            assert(k == 0);
        }
    }
}

/// The length-counter parameters that a register write carries.
#[derive(Debug, Clone, Copy, PartialEq, Eq, Structural)]
pub struct LengthCounterData {
    /// True when the counter counts down; false is the halt flag.
    pub enabled: bool,
    /// The value that a reset loads.
    pub counter_for_reset: u8,
}

impl LengthCounterData {
    pub fn new(counter_for_reset: u8, enabled: bool) -> (data: Self)
        requires
            counter_for_reset < 32,
        ensures
            data.enabled == enabled,
            data.counter_for_reset == length_table()[counter_for_reset as int],
    {
        LengthCounterData { enabled, counter_for_reset: length_counter_load(counter_for_reset) }
    }
}

/// The note-duration gate of the pulse, triangle and noise channels: a
/// channel is silent while the counter is 0.
#[derive(Debug, Clone, Copy, PartialEq, Eq, Structural)]
pub struct LengthCounter {
    pub counter: u8,
    pub data: LengthCounterData,
}

impl LengthCounter {
    pub open spec fn spec_new() -> Self {
        LengthCounter {
            counter: 0,
            data: LengthCounterData { enabled: false, counter_for_reset: 0x0A },
        }
    }

    pub fn new() -> (length_counter: Self)
        ensures
            length_counter == Self::spec_new(),
    {
        LengthCounter { counter: 0, data: LengthCounterData::new(0, false) }
    }

    /// The state after one half-frame tick.
    pub open spec fn spec_tick(self) -> Self {
        if self.data.enabled && self.counter > 0 {
            LengthCounter { counter: (self.counter - 1) as u8, ..self }
        } else {
            self
        }
    }

    pub fn tick(&mut self)
        ensures
            *final(self) == old(self).spec_tick(),
            !old(self).data.enabled ==> final(self).counter == old(self).counter,
            final(self).counter <= old(self).counter,
    {
        if !self.data.enabled {
            return ;
        }
        if self.counter > 0 {
            self.counter -= 1;
        }
    }

    pub open spec fn spec_mute(self) -> bool {
        self.counter == 0
    }

    pub fn mute(&self) -> (silent: bool)
        ensures
            silent == self.spec_mute(),
    {
        self.counter == 0
    }

    pub open spec fn spec_reset(self) -> Self {
        LengthCounter { counter: self.data.counter_for_reset, ..self }
    }

    pub fn reset(&mut self)
        ensures
            *final(self) == old(self).spec_reset(),
    {
        self.counter = self.data.counter_for_reset;
    }
}

/// Shifting to the right never makes a number larger.
pub proof fn lemma_shift_right_shrinks(value: u16, shift: u16)
    by (bit_vector)
    requires
        shift < 16,
    ensures
        value >> shift <= value,
{
}

/// The sweep parameters that a register write carries.
#[derive(Debug, Clone, Copy, PartialEq, Eq, Structural)]
pub struct SweepData {
    /// The shift count, 0 to 7.
    pub change_amount: u8,
    /// 0 adds the shifted period, anything else subtracts it.
    pub change_direction: u8,
    /// The divider period, 0 to 7.
    pub timer_count: u8,
    pub enabled: bool,
}

impl SweepData {
    pub open spec fn wf(&self) -> bool {
        self.change_amount <= 7 && self.timer_count <= 7
    }

    pub fn new(change_amount: u8, change_direction: u8, timer_count: u8, enabled: bool) -> (data:
        Self)
        requires
            change_amount <= 7,
            timer_count <= 7,
        ensures
            data == (SweepData { change_amount, change_direction, timer_count, enabled }),
            data.wf(),
    {
        SweepData { change_amount, change_direction, timer_count, enabled }
    }
}

/// The lowest and highest timer period at which a pulse channel sounds.
pub const SWEEP_MIN_PERIOD: u32 = 0x008;

pub const SWEEP_MAX_PERIOD: u32 = 0x7FF;

/// Periodic frequency shifter of a pulse channel. It owns the channel's
/// timer period.
#[derive(Debug, Clone, Copy, PartialEq, Eq, Structural)]
pub struct Sweep {
    pub data: SweepData,
    /// The channel's timer period.
    pub frequency: u16,
    /// Half-frame ticks counted since the divider last fired.
    pub counter: u8,
}

impl Sweep {
    pub open spec fn wf(&self) -> bool {
        self.data.wf() && self.counter <= 7
    }

    pub open spec fn spec_new() -> Self {
        Sweep {
            data: SweepData {
                change_amount: 0,
                change_direction: 0,
                timer_count: 0,
                enabled: false,
            },
            frequency: 0,
            counter: 0,
        }
    }

    pub fn new() -> (sweep: Self)
        ensures
            sweep == Self::spec_new(),
            sweep.wf(),
    {
        Sweep { data: SweepData::new(0, 0, 0, false), frequency: 0, counter: 0 }
    }

    /// True when the next tick makes the divider fire.
    pub open spec fn fires(self) -> bool {
        self.counter >= self.data.timer_count
    }

    /// The period that the sweep aims at: the current one plus or minus
    /// itself shifted right.
    pub open spec fn target(self) -> int {
        if self.data.change_direction == 0 {
            self.frequency + (self.frequency >> (self.data.change_amount as u16))
        } else {
            self.frequency - (self.frequency >> (self.data.change_amount as u16))
        }
    }

    /// True when the next tick computes a target period: the divider fires,
    /// the unit is enabled with a shift count, and the channel still sounds.
    pub open spec fn sweeps(self, length_counter: LengthCounter) -> bool {
        &&& self.fires()
        &&& self.data.enabled
        &&& self.data.change_amount != 0
        &&& !length_counter.spec_mute()
    }

    pub open spec fn target_in_range(self) -> bool {
        SWEEP_MIN_PERIOD <= self.target() <= SWEEP_MAX_PERIOD
    }

    /// The unit after one half-frame tick.
    pub open spec fn spec_tick(self, length_counter: LengthCounter) -> Self {
        if !self.fires() {
            Sweep { counter: (self.counter + 1) as u8, ..self }
        } else if self.sweeps(length_counter) && self.target_in_range() {
            Sweep { counter: 0, frequency: self.target() as u16, ..self }
        } else {
            Sweep { counter: 0, ..self }
        }
    }

    /// The channel's length counter after one half-frame tick of the sweep.
    pub open spec fn spec_tick_length(self, length_counter: LengthCounter) -> LengthCounter {
        if self.sweeps(length_counter) && !self.target_in_range() {
            LengthCounter { counter: 0, ..length_counter }
        } else {
            length_counter
        }
    }

    pub fn tick(&mut self, length_counter: &mut LengthCounter)
        requires
            old(self).wf(),
        ensures
            final(self).wf(),
            *final(self) == old(self).spec_tick(*old(length_counter)),
            *final(length_counter) == old(self).spec_tick_length(*old(length_counter)),
            final(self).data == old(self).data,
            final(length_counter).data == old(length_counter).data,
            old(self).sweeps(*old(length_counter)) && !old(self).target_in_range() ==> final(length_counter).counter == 0 && final(self).frequency == old(self).frequency,
            old(self).frequency <= SWEEP_MAX_PERIOD ==> final(self).frequency <= SWEEP_MAX_PERIOD,
    {
        self.counter += 1;
        if self.counter < self.data.timer_count + 1 {
            return ;
        }
        self.counter = 0;
        if !self.data.enabled {
            return ;
        }
        if self.data.change_amount == 0 {
            return ;
        }
        if length_counter.mute() {
            return ;
        }
        let period: u32 = self.frequency as u32;
        let change: u32 = (self.frequency >> (self.data.change_amount as u16)) as u32;
        proof {
            lemma_shift_right_shrinks(self.frequency, self.data.change_amount as u16);
        }
        let target: u32 = if self.data.change_direction == 0 {
            period + change
        } else {
            period - change
        };
        if target < SWEEP_MIN_PERIOD || target > SWEEP_MAX_PERIOD {
            length_counter.counter = 0;
        } else {
            self.frequency = target as u16;
        }
    }

    /// The divider by which the CPU clock gives the channel's frequency.
    pub open spec fn spec_divider(self) -> int {
        16 * (self.frequency + 1)
    }

    /// The fraction of a cycle that the pulse wave moves in one output
    /// sample; a period of 0 stops the wave.
    pub open spec fn spec_step(self, sample_rate: u32) -> int {
        if self.frequency == 0 {
            0
        } else {
            spec_phase_increment(self.spec_divider() as u32, sample_rate)
        }
    }

    pub fn step(&self, sample_rate: u32) -> (step: u64)
        requires
            sample_rate > 0,
        ensures
            step == self.spec_step(sample_rate),
            step <= CPU_CLOCK_X2 * 0x8000_0000,
    {
        if self.frequency == 0 {
            return 0;
        }
        phase_increment(16 * (self.frequency as u32 + 1), sample_rate)
    }

    pub open spec fn spec_reset(self) -> Self {
        Sweep { counter: 0, ..self }
    }

    pub fn reset(&mut self)
        requires
            old(self).data.wf(),
        ensures
            *final(self) == old(self).spec_reset(),
            final(self).wf(),
    {
        self.counter = 0;
    }
}

/// The linear-counter parameters that a register write carries.
#[derive(Debug, Clone, Copy, PartialEq, Eq, Structural)]
pub struct LinearCounterData {
    /// The value that a reload loads, 0 to 127.
    pub counter_for_reset: u8,
    /// True when the control flag is clear, so that a reload request ends
    /// with the next tick.
    pub enabled: bool,
}

impl LinearCounterData {
    pub open spec fn wf(&self) -> bool {
        self.counter_for_reset <= 127
    }

    pub fn new(counter_for_reset: u8, enabled: bool) -> (data: Self)
        requires
            counter_for_reset <= 127,
        ensures
            data == (LinearCounterData { counter_for_reset, enabled }),
            data.wf(),
    {
        LinearCounterData { counter_for_reset, enabled }
    }
}

/// The triangle channel's second duration gate.
#[derive(Debug, Clone, Copy, PartialEq, Eq, Structural)]
pub struct LinearCounter {
    pub data: LinearCounterData,
    pub counter: u8,
    /// Set by a reset; while set, every tick reloads the counter.
    pub reload_flag: bool,
}

impl LinearCounter {
    pub open spec fn wf(&self) -> bool {
        self.data.wf() && self.counter <= 127
    }

    pub open spec fn spec_new() -> Self {
        LinearCounter {
            data: LinearCounterData { counter_for_reset: 0, enabled: false },
            counter: 0,
            reload_flag: false,
        }
    }

    pub fn new() -> (linear_counter: Self)
        ensures
            linear_counter == Self::spec_new(),
            linear_counter.wf(),
    {
        LinearCounter { data: LinearCounterData::new(0, false), counter: 0, reload_flag: false }
    }

    /// The state after one quarter-frame tick.
    pub open spec fn spec_tick(self) -> Self {
        LinearCounter {
            counter: if self.reload_flag {
                self.data.counter_for_reset
            } else if self.counter > 0 {
                (self.counter - 1) as u8
            } else {
                0
            },
            reload_flag: self.reload_flag && !self.data.enabled,
            ..self
        }
    }

    pub fn tick(&mut self)
        requires
            old(self).wf(),
        ensures
            final(self).wf(),
            *final(self) == old(self).spec_tick(),
    {
        if self.reload_flag {
            self.counter = self.data.counter_for_reset;
        } else if self.counter > 0 {
            self.counter -= 1;
        }
        if self.data.enabled {
            self.reload_flag = false;
        }
    }

    pub open spec fn spec_mute(self) -> bool {
        self.counter == 0
    }

    pub fn mute(&self) -> (silent: bool)
        ensures
            silent == self.spec_mute(),
    {
        self.counter == 0
    }

    pub open spec fn spec_reset(self) -> Self {
        LinearCounter { counter: self.data.counter_for_reset, reload_flag: true, ..self }
    }

    pub fn reset(&mut self)
        requires
            old(self).data.wf(),
        ensures
            *final(self) == old(self).spec_reset(),
            final(self).wf(),
    {
        self.counter = self.data.counter_for_reset;
        self.reload_flag = true;
    }
}

/// The bit that the shift register feeds back: bit 0 xor bit 1 in the long
/// mode, bit 0 xor bit 6 in the short mode.
pub open spec fn lfsr_feedback(value: u16, is_long: bool) -> u16 {
    if is_long {
        (value & 0x01) ^ ((value >> 1) & 0x01)
    } else {
        (value & 0x01) ^ ((value >> 6) & 0x01)
    }
}

/// One step of the 15-bit shift register: shift right, feedback into bit 14.
pub open spec fn lfsr_next(value: u16, is_long: bool) -> u16 {
    ((value >> 1) & 0x3FFF) | (lfsr_feedback(value, is_long) << 14)
}

/// The register after `n` steps.
pub open spec fn lfsr_steps(value: u16, is_long: bool, n: nat) -> u16
    decreases n,
{
    if n == 0 {
        value
    } else {
        lfsr_next(lfsr_steps(value, is_long, (n - 1) as nat), is_long)
    }
}

/// A register state that the generator can be in: 15 bits, not all zero.
pub open spec fn lfsr_valid(value: u16) -> bool {
    1 <= value <= 0x7FFF
}

/// What the bit operations of one step amount to, for both modes.
proof fn lemma_lfsr_bits(value: u16)
    by (bit_vector)
    ensures
        (value & 0x01) ^ ((value >> 1) & 0x01) <= 1,
        (value & 0x01) ^ ((value >> 6) & 0x01) <= 1,
        1 <= value <= 0x7FFF ==> 1 <= (((value >> 1) & 0x3FFF) | (((value & 0x01) ^ ((value >> 1)
            & 0x01)) << 14)) <= 0x7FFF,
        1 <= value <= 0x7FFF ==> 1 <= (((value >> 1) & 0x3FFF) | (((value & 0x01) ^ ((value >> 6)
            & 0x01)) << 14)) <= 0x7FFF,
        value == 0 ==> (((value >> 1) & 0x3FFF) | (((value & 0x01) ^ ((value >> 1) & 0x01)) << 14))
            == 0,
        value == 0 ==> (((value >> 1) & 0x3FFF) | (((value & 0x01) ^ ((value >> 6) & 0x01)) << 14))
            == 0,
{
}

/// A step never leads into the all-zero state, from which no step leads
/// out, and never sets bit 15.
pub proof fn lemma_lfsr_next_valid(value: u16, is_long: bool)
    requires
        lfsr_valid(value),
    ensures
        lfsr_valid(lfsr_next(value, is_long)),
{
    lemma_lfsr_bits(value);
}

/// No number of steps leads into the all-zero state.
pub proof fn lemma_lfsr_steps_valid(value: u16, is_long: bool, n: nat)
    requires
        lfsr_valid(value),
    ensures
        lfsr_valid(lfsr_steps(value, is_long, n)),
    decreases n,
{
    if n > 0 {
        lemma_lfsr_steps_valid(value, is_long, (n - 1) as nat);
        lemma_lfsr_next_valid(lfsr_steps(value, is_long, (n - 1) as nat), is_long);
    }
}

/// The all-zero state is a dead end: every step from it leads back to it.
pub proof fn lemma_lfsr_zero_is_dead(is_long: bool)
    ensures
        lfsr_next(0, is_long) == 0,
{
    lemma_lfsr_bits(0);
}

/// The noise channel's pseudo-random bit source.
#[derive(Debug, Clone, Copy, PartialEq, Eq, Structural)]
pub struct NoiseRandom {
    pub value: u16,
}

impl NoiseRandom {
    pub open spec fn wf(&self) -> bool {
        lfsr_valid(self.value)
    }

    pub fn new() -> (random: Self)
        ensures
            random.value == 1,
            random.wf(),
    {
        NoiseRandom { value: 1 }
    }

    /// Steps the register once and returns its new bit 0.
    pub fn next(&mut self, is_long: bool) -> (bit: bool)
        requires
            old(self).wf(),
        ensures
            final(self).wf(),
            final(self).value == lfsr_next(old(self).value, is_long),
            bit == (final(self).value & 0x01 != 0),
    {
        proof {
            lemma_lfsr_bits(self.value);
        }
        let b: u16 = if is_long {
            (self.value & 0x01) ^ ((self.value >> 1) & 0x01)
        } else {
            (self.value & 0x01) ^ ((self.value >> 6) & 0x01)
        };
        self.value = self.value >> 1;
        self.value = self.value & 0x3FFF | b << 14;
        self.value & 0x01 != 0
    }
}

} // verus!
