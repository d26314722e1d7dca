use nes_emu::apu::units::{
    length_counter_load, noise_period, dmc_period, phase_increment, Envelope, EnvelopeData,
    LengthCounter, LengthCounterData, LinearCounter, LinearCounterData, NoiseRandom, Sweep,
    SweepData, LENGTH_COUNTER_TABLE,
};

#[test]
fn length_table_matches_hardware() {
    let expected: [u8; 32] = [
        0x0A, 0xFE, 0x14, 0x02, 0x28, 0x04, 0x50, 0x06, 0xA0, 0x08, 0x3C, 0x0A, 0x0E, 0x0C, 0x1A,
        0x0E, 0x0C, 0x10, 0x18, 0x12, 0x30, 0x14, 0x60, 0x16, 0xC0, 0x18, 0x48, 0x1A, 0x10, 0x1C,
        0x20, 0x1E,
    ];
    for index in 0..32u8 {
        assert_eq!(length_counter_load(index), expected[index as usize]);
        assert_eq!(LENGTH_COUNTER_TABLE[index as usize], expected[index as usize]);
        let data = LengthCounterData::new(index, true);
        assert_eq!(data.counter_for_reset, expected[index as usize]);
        assert!(data.enabled);
    }
    assert_eq!(length_counter_load(0), 0x0A);
    assert_eq!(length_counter_load(1), 0xFE);
    assert_eq!(length_counter_load(2), 0x14);
}

#[test]
fn period_tables_have_their_first_and_last_entries() {
    assert_eq!(noise_period(0), 0x0004);
    assert_eq!(noise_period(8), 0x00CA);
    assert_eq!(noise_period(15), 0x0FE4);
    assert_eq!(dmc_period(0), 0x01AC);
    assert_eq!(dmc_period(15), 0x0036);
}

#[test]
fn phase_increment_is_exact() {
    // 3579545 * 2^31 / (1360 * 44100)
    assert_eq!(phase_increment(1360, 44100), 128_168_173);
    // one CPU cycle per sample at a sample rate of half the doubled clock
    assert_eq!(phase_increment(1, 3_579_545), 0x8000_0000);
}

#[test]
fn envelope_decays_once_per_divider_period() {
    let mut envelope = Envelope::new();
    envelope.data = EnvelopeData::new(2, true, false);
    envelope.reset();
    assert_eq!(envelope.counter, 15);
    assert_eq!(envelope.division_period, 3);
    let mut levels = Vec::new();
    for _ in 0..9 {
        envelope.tick();
        levels.push(envelope.counter);
    }
    assert_eq!(levels, vec![15, 15, 14, 14, 14, 13, 13, 13, 12]);
}

#[test]
fn envelope_is_non_increasing_and_holds_at_zero_without_loop() {
    for rate in 0..16u8 {
        let mut envelope = Envelope::new();
        envelope.data = EnvelopeData::new(rate, true, false);
        envelope.reset();
        let mut last = envelope.counter;
        for _ in 0..400 {
            envelope.tick();
            assert!(envelope.counter <= last);
            last = envelope.counter;
        }
        assert_eq!(envelope.counter, 0);
        assert_eq!(envelope.volume(), 0);
    }
}

#[test]
fn envelope_returns_to_fifteen_with_loop() {
    let mut envelope = Envelope::new();
    envelope.data = EnvelopeData::new(0, true, true);
    envelope.reset();
    for expected in (0..15u8).rev() {
        envelope.tick();
        assert_eq!(envelope.counter, expected);
    }
    envelope.tick();
    assert_eq!(envelope.counter, 15);
}

#[test]
fn envelope_constant_volume_is_the_rate() {
    let mut envelope = Envelope::new();
    envelope.data = EnvelopeData::new(9, false, false);
    assert_eq!(envelope.volume(), 9);
    envelope.tick();
    envelope.tick();
    assert_eq!(envelope.volume(), 9);
    envelope.data = EnvelopeData::new(9, true, false);
    assert_eq!(envelope.volume(), envelope.counter);
}

#[test]
fn length_counter_counts_only_when_enabled() {
    let mut counter = LengthCounter::new();
    assert!(counter.mute());
    counter.data = LengthCounterData::new(3, true);
    counter.reset();
    assert_eq!(counter.counter, 2);
    counter.tick();
    assert_eq!(counter.counter, 1);
    assert!(!counter.mute());
    counter.tick();
    assert!(counter.mute());
    counter.tick();
    assert_eq!(counter.counter, 0);

    counter.data = LengthCounterData::new(1, false);
    counter.reset();
    assert_eq!(counter.counter, 0xFE);
    counter.tick();
    assert_eq!(counter.counter, 0xFE);
}

fn sounding() -> LengthCounter {
    let mut counter = LengthCounter::new();
    counter.data = LengthCounterData::new(1, true);
    counter.reset();
    counter
}

#[test]
fn sweep_commits_a_target_in_range() {
    let mut length = sounding();
    let mut sweep = Sweep::new();
    sweep.data = SweepData::new(1, 0, 0, true);
    sweep.frequency = 0x100;
    sweep.tick(&mut length);
    assert_eq!(sweep.frequency, 0x180);
    assert_eq!(length.counter, 0xFE);

    sweep.data = SweepData::new(2, 1, 0, true);
    sweep.tick(&mut length);
    assert_eq!(sweep.frequency, 0x180 - 0x60);
}

#[test]
fn sweep_silences_the_channel_on_overflow() {
    let mut length = sounding();
    let mut sweep = Sweep::new();
    sweep.data = SweepData::new(1, 0, 0, true);
    sweep.frequency = 0x600;
    sweep.tick(&mut length);
    assert_eq!(length.counter, 0);
    assert!(length.mute());
    assert_eq!(sweep.frequency, 0x600);
    // synthesis goes on: further ticks do nothing more
    sweep.tick(&mut length);
    assert_eq!(sweep.frequency, 0x600);
}

#[test]
fn sweep_silences_the_channel_on_underflow() {
    let mut length = sounding();
    let mut sweep = Sweep::new();
    sweep.data = SweepData::new(1, 1, 0, true);
    sweep.frequency = 0x00C;
    sweep.tick(&mut length);
    assert_eq!(length.counter, 0);
    assert_eq!(sweep.frequency, 0x00C);
}

#[test]
fn sweep_waits_for_its_divider() {
    let mut length = sounding();
    let mut sweep = Sweep::new();
    sweep.data = SweepData::new(1, 0, 2, true);
    sweep.frequency = 0x100;
    sweep.tick(&mut length);
    assert_eq!((sweep.frequency, sweep.counter), (0x100, 1));
    sweep.tick(&mut length);
    assert_eq!((sweep.frequency, sweep.counter), (0x100, 2));
    sweep.tick(&mut length);
    assert_eq!((sweep.frequency, sweep.counter), (0x180, 0));
}

#[test]
fn sweep_does_nothing_when_disabled_or_silent() {
    let mut length = sounding();
    let mut sweep = Sweep::new();
    sweep.data = SweepData::new(1, 0, 0, false);
    sweep.frequency = 0x600;
    sweep.tick(&mut length);
    assert_eq!(length.counter, 0xFE);
    sweep.data = SweepData::new(0, 0, 0, true);
    sweep.tick(&mut length);
    assert_eq!(length.counter, 0xFE);

    let mut silent = LengthCounter::new();
    sweep.data = SweepData::new(1, 0, 0, true);
    sweep.frequency = 0x100;
    sweep.tick(&mut silent);
    assert_eq!(sweep.frequency, 0x100);
}

#[test]
fn sweep_step_stops_at_period_zero() {
    let mut sweep = Sweep::new();
    assert_eq!(sweep.step(44100), 0);
    sweep.frequency = 0x054;
    assert_eq!(sweep.step(44100), 128_168_173);
    sweep.reset();
    assert_eq!(sweep.counter, 0);
}

#[test]
fn linear_counter_reloads_while_flag_is_set() {
    let mut counter = LinearCounter::new();
    assert!(counter.mute());
    counter.data = LinearCounterData::new(3, true);
    counter.reset();
    assert_eq!(counter.counter, 3);
    assert!(counter.reload_flag);
    counter.tick();
    // the pending reload is performed, then the flag is cleared
    assert_eq!(counter.counter, 3);
    assert!(!counter.reload_flag);
    counter.tick();
    assert_eq!(counter.counter, 2);
    counter.tick();
    counter.tick();
    assert!(counter.mute());
    counter.tick();
    assert_eq!(counter.counter, 0);

    // with the control flag set the reload flag is never cleared
    counter.data = LinearCounterData::new(5, false);
    counter.reset();
    for _ in 0..10 {
        counter.tick();
        assert_eq!(counter.counter, 5);
        assert!(counter.reload_flag);
    }
}

#[test]
fn lfsr_first_steps() {
    let mut random = NoiseRandom::new();
    assert_eq!(random.value, 1);
    assert!(!random.next(true));
    assert_eq!(random.value, 0x4000);
    assert!(!random.next(true));
    assert_eq!(random.value, 0x2000);
    let mut short = NoiseRandom::new();
    assert!(!short.next(false));
    assert_eq!(short.value, 0x4000);
}

#[test]
fn lfsr_long_mode_has_period_32767() {
    let mut random = NoiseRandom::new();
    let mut steps = 0u32;
    loop {
        random.next(true);
        steps += 1;
        assert_ne!(random.value, 0);
        assert!(random.value < 0x8000);
        if random.value == 1 {
            break;
        }
        assert!(steps < 40000);
    }
    assert_eq!(steps, 32767);
}

#[test]
fn lfsr_short_mode_has_period_93() {
    let mut random = NoiseRandom::new();
    let mut steps = 0u32;
    loop {
        random.next(false);
        steps += 1;
        assert_ne!(random.value, 0);
        if random.value == 1 {
            break;
        }
        assert!(steps < 1000);
    }
    assert_eq!(steps, 93);
}

#[test]
fn lfsr_output_is_bit_zero_after_the_shift() {
    let mut random = NoiseRandom { value: 0b110 };
    // bit 0 = 0, bit 1 = 1: feedback 1
    let bit = random.next(true);
    assert_eq!(random.value, 0b011 | 0x4000);
    assert!(bit);
}
