use nes_emu::apu::dmc::{DMCEvent, DMCRegister, DMCWave};
use nes_emu::apu::events::{
    ChannelEvent, NoiseEvent, NoiseKind, NoiseNote, SquareEvent, SquareNote, TriangleEvent,
    TriangleNote,
};
use nes_emu::apu::noise::NoiseWave;
use nes_emu::apu::square::SquareWave;
use nes_emu::apu::triangle::{TriangleWave, TRIANGLE_FULL_SCALE};
use nes_emu::apu::units::{EnvelopeData, LengthCounterData, LinearCounterData, SweepData};
use nes_emu::apu::NesAPU;
use nes_emu::mapper::{check_covers_prg_rom, Mapper, Mapper0};
use nes_emu::rom::Rom;

const RATE: u32 = 44100;

fn playing_square(period: u16, duty: u8) -> SquareWave {
    let mut wave = SquareWave::new(RATE);
    let events = vec![
        SquareEvent::Note(SquareNote { duty }),
        SquareEvent::Envelope(EnvelopeData::new(15, false, false)),
        SquareEvent::LengthCounter(LengthCounterData::new(1, true)),
        SquareEvent::ChangeFrequency(period),
        SquareEvent::Reset(),
        SquareEvent::Enable(true),
    ];
    let (samples, notices) = wave.callback(&events, 0);
    assert!(samples.is_empty());
    assert!(notices.is_empty());
    wave
}

#[test]
fn square_is_silent_at_power_on() {
    let mut wave = SquareWave::new(RATE);
    let (samples, notices) = wave.callback(&Vec::new(), 64);
    assert_eq!(samples, vec![0i8; 64]);
    assert!(notices.is_empty());
}

#[test]
fn square_duty_thresholds() {
    assert_eq!(SquareNote { duty: 0 }.duty(), 0x2000_0000);
    assert_eq!(SquareNote { duty: 1 }.duty(), 0x4000_0000);
    assert_eq!(SquareNote { duty: 2 }.duty(), 0x8000_0000);
    assert_eq!(SquareNote { duty: 3 }.duty(), 0xC000_0000);
    assert_eq!(SquareNote::new().duty, 0);
}

#[test]
fn square_output_follows_duty_and_volume() {
    let mut wave = playing_square(0x054, 2);
    wave.phase = 0x8000_0000;
    assert_eq!(wave.sample(), 15);
    wave.phase = 0x8000_0001;
    assert_eq!(wave.sample(), -15);
    wave.handle(SquareEvent::Note(SquareNote { duty: 0 }));
    wave.phase = 0x2000_0001;
    assert_eq!(wave.sample(), -15);
    wave.handle(SquareEvent::Envelope(EnvelopeData::new(7, false, false)));
    wave.phase = 0;
    assert_eq!(wave.sample(), 7);
    wave.handle(SquareEvent::Enable(false));
    assert_eq!(wave.sample(), 0);
}

#[test]
fn square_end_to_end_from_register_writes() {
    let mut apu = NesAPU::new();
    // duty 50 %, constant volume 15
    apu.write_1ch(0x4000, 0b1001_1111);
    apu.write_1ch(0x4002, 0x54);
    apu.write_1ch(0x4003, 0x00);
    apu.write_status(0x01);

    let mut wave = SquareWave::new(RATE);
    let (levels, notices) = wave.callback(&apu.ch1_events, RATE as usize);
    assert!(notices.is_empty());
    let samples: Vec<f32> = levels.iter().map(|level| *level as f32 / 15.0).collect();
    assert_eq!(samples.len(), 44100);
    for sample in &samples {
        assert!(*sample == 1.0 || *sample == -1.0);
    }

    // the frequency is the CPU clock over 16 * (period + 1)
    let expected = 1_789_772.5f64 / (16.0 * (0x054 as f64 + 1.0));
    let mut rising = Vec::new();
    for i in 1..samples.len() {
        if samples[i - 1] < 0.0 && samples[i] > 0.0 {
            rising.push(i);
        }
    }
    let cycles = (rising.len() - 1) as f64;
    let span = (rising[rising.len() - 1] - rising[0]) as f64;
    let measured = cycles * RATE as f64 / span;
    assert!((measured - expected).abs() < 1.0, "measured {} Hz, expected {} Hz", measured, expected);

    // no DC bias over one full period, up to the one sample that a period
    // of 33.5 samples cannot split
    for pair in rising.windows(2) {
        let sum: f32 = samples[pair[0]..pair[1]].iter().sum();
        assert!(sum.abs() <= 1.0);
    }
    let total: f32 = samples[rising[0]..rising[rising.len() - 1]].iter().sum();
    assert!((total / span as f32).abs() < 0.001);
}

#[test]
fn square_phase_advances_by_the_exact_step() {
    let mut wave = playing_square(0x054, 2);
    assert_eq!(wave.phase, 0);
    assert_eq!(wave.next_sample(), 15);
    assert_eq!(wave.phase, 128_168_173);
    for _ in 0..33 {
        wave.next_sample();
    }
    // 34 steps wrap once
    assert_eq!(wave.phase as u64, (34u64 * 128_168_173) % (1u64 << 32));
}

#[test]
fn square_stops_at_period_zero() {
    let mut wave = playing_square(0, 2);
    for _ in 0..10 {
        assert_eq!(wave.next_sample(), 15);
    }
    assert_eq!(wave.phase, 0);
}

#[test]
fn square_length_counter_tick_notifies_and_silences() {
    let mut wave = SquareWave::new(RATE);
    let events = vec![
        SquareEvent::Envelope(EnvelopeData::new(15, false, false)),
        SquareEvent::LengthCounter(LengthCounterData::new(3, true)),
        SquareEvent::Reset(),
        SquareEvent::LengthCounterTick(),
        SquareEvent::LengthCounterTick(),
        SquareEvent::LengthCounterTick(),
    ];
    let (samples, notices) = wave.callback(&events, 4);
    assert_eq!(
        notices,
        vec![
            ChannelEvent::LengthCounter(1),
            ChannelEvent::LengthCounter(0),
            ChannelEvent::LengthCounter(0),
        ]
    );
    assert_eq!(samples, vec![0, 0, 0, 0]);
}

#[test]
fn square_sweep_tick_mutes_on_overflow() {
    let mut wave = playing_square(0x600, 2);
    assert_eq!(wave.sample(), 15);
    wave.handle(SquareEvent::Sweep(SweepData::new(1, 0, 0, true)));
    assert_eq!(wave.handle(SquareEvent::SweepTick()), None);
    assert_eq!(wave.length_counter.counter, 0);
    assert_eq!(wave.sweep.frequency, 0x600);
    assert_eq!(wave.sample(), 0);
    // rendering goes on
    let (samples, _) = wave.callback(&Vec::new(), 8);
    assert_eq!(samples, vec![0i8; 8]);
}

#[test]
fn square_reset_restarts_phase_and_counters() {
    let mut wave = playing_square(0x054, 2);
    for _ in 0..5 {
        wave.next_sample();
    }
    wave.handle(SquareEvent::Envelope(EnvelopeData::new(3, true, false)));
    wave.handle(SquareEvent::EnvelopeTick());
    wave.handle(SquareEvent::LengthCounterTick());
    wave.handle(SquareEvent::Reset());
    assert_eq!(wave.phase, 0);
    assert_eq!(wave.envelope.counter, 15);
    assert_eq!(wave.envelope.division_period, 4);
    assert_eq!(wave.length_counter.counter, 0xFE);
    assert_eq!(wave.sweep.counter, 0);
}

#[test]
fn square_parameter_events_are_idempotent() {
    let events = [
        SquareEvent::Note(SquareNote { duty: 3 }),
        SquareEvent::Enable(false),
        SquareEvent::Enable(true),
        SquareEvent::Envelope(EnvelopeData::new(4, true, true)),
        SquareEvent::LengthCounter(LengthCounterData::new(7, false)),
        SquareEvent::ChangeFrequency(0x123),
        SquareEvent::Sweep(SweepData::new(3, 1, 2, true)),
    ];
    for event in events {
        let mut once = playing_square(0x054, 2);
        once.phase = 0x9000_0000;
        let mut twice = once;
        once.handle(event);
        twice.handle(event);
        twice.handle(event);
        assert_eq!(once, twice);
        assert_eq!(once.sample(), twice.sample());
        assert_eq!(once.next_sample(), twice.next_sample());
        assert_eq!(once.next_sample(), twice.next_sample());
    }
}

#[test]
fn triangle_ramp() {
    let mut wave = TriangleWave::new(RATE);
    let events = vec![
        TriangleEvent::LinearCounter(LinearCounterData::new(0x7F, false)),
        TriangleEvent::LengthCounter(LengthCounterData::new(1, false)),
        TriangleEvent::Note(TriangleNote { frequency: 0x0FF }),
        TriangleEvent::Reset(),
    ];
    let (samples, notices) = wave.callback(&events, 0);
    assert!(samples.is_empty() && notices.is_empty());
    wave.phase = 0;
    assert_eq!(wave.sample(), -TRIANGLE_FULL_SCALE);
    wave.phase = 0x4000_0000;
    assert_eq!(wave.sample(), 0);
    wave.phase = 0x8000_0000;
    assert_eq!(wave.sample(), TRIANGLE_FULL_SCALE);
    wave.phase = 0xC000_0000;
    assert_eq!(wave.sample(), 0);
    wave.phase = 0xFFFF_FFFF;
    assert_eq!(wave.sample(), 1 - TRIANGLE_FULL_SCALE);
    // as a fraction of full scale
    wave.phase = 0x2000_0000;
    assert_eq!(wave.sample() as f64 / TRIANGLE_FULL_SCALE as f64, -0.5);
}

#[test]
fn triangle_frequency_is_clock_over_32_periods() {
    let mut wave = TriangleWave::new(RATE);
    wave.handle(TriangleEvent::Note(TriangleNote { frequency: 0x0FF }));
    wave.next_sample();
    // 3579545 * 2^31 / (32 * 256 * 44100)
    assert_eq!(wave.phase as u64, (3_579_545u64 << 31) / (32 * 256 * 44100));
}

#[test]
fn triangle_is_gated_by_both_counters() {
    let mut wave = TriangleWave::new(RATE);
    wave.phase = 0x8000_0000;
    assert_eq!(wave.sample(), 0);
    wave.handle(TriangleEvent::LengthCounter(LengthCounterData::new(1, true)));
    wave.handle(TriangleEvent::Reset());
    wave.phase = 0x8000_0000;
    // linear counter still 0
    assert_eq!(wave.sample(), 0);
    wave.handle(TriangleEvent::LinearCounter(LinearCounterData::new(2, true)));
    assert_eq!(wave.sample(), TRIANGLE_FULL_SCALE);
    assert_eq!(wave.handle(TriangleEvent::LinearCounterTick()), None);
    assert_eq!(wave.linear_counter.counter, 2);
    wave.handle(TriangleEvent::LinearCounterTick());
    wave.handle(TriangleEvent::LinearCounterTick());
    assert_eq!(wave.linear_counter.counter, 0);
    assert_eq!(wave.sample(), 0);
    wave.handle(TriangleEvent::Reset());
    wave.phase = 0x8000_0000;
    assert_eq!(wave.sample(), TRIANGLE_FULL_SCALE);
    assert_eq!(
        wave.handle(TriangleEvent::LengthCounterTick()),
        Some(ChannelEvent::LengthCounter(0xFD))
    );
    // a length-counter tick leaves the linear counter alone
    assert_eq!(wave.linear_counter.counter, 2);
    wave.handle(TriangleEvent::Enable(false));
    assert_eq!(wave.sample(), 0);
}

#[test]
fn triangle_parameter_events_are_idempotent() {
    let events = [
        TriangleEvent::Note(TriangleNote { frequency: 0x321 }),
        TriangleEvent::Enable(false),
        TriangleEvent::LengthCounter(LengthCounterData::new(9, true)),
        TriangleEvent::LinearCounter(LinearCounterData::new(17, true)),
    ];
    for event in events {
        let mut once = TriangleWave::new(RATE);
        once.handle(TriangleEvent::LengthCounter(LengthCounterData::new(1, true)));
        once.handle(TriangleEvent::LinearCounter(LinearCounterData::new(5, true)));
        once.handle(TriangleEvent::Reset());
        once.phase = 0x1234_5678;
        let mut twice = once;
        once.handle(event);
        twice.handle(event);
        twice.handle(event);
        assert_eq!(once, twice);
        assert_eq!(once.next_sample(), twice.next_sample());
    }
}

fn playing_noise(index: u8, kind: NoiseKind) -> NoiseWave {
    let mut wave = NoiseWave::new(RATE);
    let events = vec![
        NoiseEvent::Envelope(EnvelopeData::new(12, false, false)),
        NoiseEvent::LengthCounter(LengthCounterData::new(1, true)),
        NoiseEvent::Note(NoiseNote { hz: index, kind }),
        NoiseEvent::Reset(),
    ];
    wave.callback(&events, 0);
    wave
}

#[test]
fn noise_output_is_level_or_silence_never_negative() {
    let mut wave = playing_noise(3, NoiseKind::Long);
    let (samples, _) = wave.callback(&Vec::new(), 5000);
    assert!(samples.iter().all(|s| *s == 0 || *s == 12));
    assert!(samples.iter().any(|s| *s == 12));
    assert!(samples.iter().any(|s| *s == 0));
    assert_ne!(wave.random.value, 0);
}

#[test]
fn noise_steps_the_register_once_per_wrap() {
    // period 4 CPU cycles: 447443.125 Hz, 10.146 steps per sample
    let mut wave = playing_noise(0, NoiseKind::Long);
    let step = (3_579_545u64 << 31) / (4 * 44100);
    let mut reference = nes_emu::apu::units::NoiseRandom::new();
    let mut phase = 0u64;
    for _ in 0..100 {
        wave.next_sample();
        let total = phase + step;
        for _ in 0..(total >> 32) {
            reference.next(true);
        }
        phase = total & 0xFFFF_FFFF;
        assert_eq!(wave.random.value, reference.value);
        assert_eq!(wave.phase as u64, phase);
        assert_eq!(wave.is_sound, reference.value & 1 != 0);
    }
    assert_eq!(step >> 32, 10);
}

#[test]
fn noise_short_mode_uses_tap_six() {
    let mut wave = playing_noise(0, NoiseKind::Short);
    assert!(!NoiseNote { hz: 0, kind: NoiseKind::Short }.is_long());
    assert!(NoiseNote::new().is_long());
    let mut seen = std::collections::HashSet::new();
    for _ in 0..200 {
        wave.next_sample();
        seen.insert(wave.random.value);
    }
    // the short sequence has only 93 states
    assert!(seen.len() <= 93);
}

#[test]
fn noise_is_gated_like_pulse() {
    let mut wave = playing_noise(3, NoiseKind::Long);
    wave.is_sound = false;
    assert_eq!(wave.sample(), 12);
    wave.is_sound = true;
    assert_eq!(wave.sample(), 0);
    wave.is_sound = false;
    wave.handle(NoiseEvent::Enable(false));
    assert_eq!(wave.sample(), 0);
    wave.handle(NoiseEvent::Enable(true));
    for _ in 0..0xFD {
        wave.handle(NoiseEvent::LengthCounterTick());
    }
    assert_eq!(wave.sample(), 12);
    assert_eq!(
        wave.handle(NoiseEvent::LengthCounterTick()),
        Some(ChannelEvent::LengthCounter(0))
    );
    assert_eq!(wave.sample(), 0);
    wave.handle(NoiseEvent::Envelope(EnvelopeData::new(1, true, false)));
    wave.handle(NoiseEvent::Reset());
    assert_eq!(wave.sample(), 15);
    wave.handle(NoiseEvent::EnvelopeTick());
    wave.handle(NoiseEvent::EnvelopeTick());
    assert_eq!(wave.sample(), 14);
}

#[test]
fn noise_parameter_events_are_idempotent() {
    let events = [
        NoiseEvent::Note(NoiseNote { hz: 7, kind: NoiseKind::Short }),
        NoiseEvent::Enable(false),
        NoiseEvent::Envelope(EnvelopeData::new(4, true, true)),
        NoiseEvent::LengthCounter(LengthCounterData::new(7, false)),
    ];
    for event in events {
        let mut once = playing_noise(2, NoiseKind::Long);
        let mut twice = once;
        once.handle(event);
        twice.handle(event);
        twice.handle(event);
        assert_eq!(once, twice);
        assert_eq!(once.next_sample(), twice.next_sample());
    }
}

fn cartridge(fill: impl Fn(usize) -> u8) -> Mapper0 {
    let mut rom = Rom::empty();
    rom.prg_rom = (0..0x8000).map(|i| fill(i)).collect();
    let mut mapper = Mapper0::new();
    mapper.set_rom(rom);
    assert!(check_covers_prg_rom(&mapper));
    mapper
}

#[test]
fn dmc_register_decoding() {
    let mut register = DMCRegister::new();
    register.write(0x4010, 0b1100_1010);
    assert!(register.irq_enable);
    assert!(register.loop_flag);
    assert_eq!(register.frequency_index, 0x0A);
    register.write(0x4010, 0b0000_0101);
    assert!(!register.irq_enable);
    assert!(!register.loop_flag);
    assert_eq!(register.frequency_index, 5);
    register.write(0x4011, 0xFF);
    assert_eq!(register.delta_counter, 0x7F);
    register.write(0x4012, 0x40);
    assert_eq!(register.sample_start_addr, 0x40);
    register.write(0x4013, 0x02);
    assert_eq!(register.sample_byte_count, 2);
}

#[test]
fn dmc_sample_address_and_length_formulas() {
    let mut wave = DMCWave::new(RATE);
    assert_eq!(wave.sample_address, 0xC000);
    assert_eq!(wave.bytes_remaining, 0);
    wave.handle(DMCEvent::SampleStartAddr(0x01));
    assert_eq!(wave.sample_address, 0xC040);
    wave.handle(DMCEvent::SampleStartAddr(0xFF));
    assert_eq!(wave.sample_address, 0xFFC0);
    wave.handle(DMCEvent::SampleByteCount(0));
    assert_eq!(wave.bytes_remaining, 1);
    wave.handle(DMCEvent::SampleByteCount(0xFF));
    assert_eq!(wave.bytes_remaining, 4081);
    wave.handle(DMCEvent::SampleByteCount(2));
    assert_eq!(wave.bytes_remaining, 33);
}

#[test]
fn dmc_level_write_leaves_sample_state_alone() {
    let mut wave = DMCWave::new(RATE);
    wave.handle(DMCEvent::SampleStartAddr(3));
    wave.handle(DMCEvent::SampleByteCount(4));
    let before = wave;
    wave.handle(DMCEvent::Delta(0x55));
    assert_eq!(wave.output_level, 0x55);
    assert_eq!(wave.sample_address, before.sample_address);
    assert_eq!(wave.bytes_remaining, before.bytes_remaining);
    assert_eq!(wave.bits_remaining, before.bits_remaining);
    assert_eq!(wave.bit_buffer, before.bit_buffer);
    // output is (level - 64) / 64
    assert_eq!(wave.sample() as f32 / 64.0, (0x55 as f32 - 64.0) / 64.0);
    wave.handle(DMCEvent::Delta(64));
    assert_eq!(wave.sample(), 0);
    wave.handle(DMCEvent::Delta(0));
    assert_eq!(wave.sample(), -64);
    wave.handle(DMCEvent::Delta(127));
    assert_eq!(wave.sample(), 63);
    wave.handle(DMCEvent::Enable(false));
    assert_eq!(wave.sample(), 0);
}

#[test]
fn dmc_bits_move_the_level_by_two_and_clamp() {
    let mapper = cartridge(|_| 0xFF);
    let mut wave = DMCWave::new(RATE);
    wave.handle(DMCEvent::SampleByteCount(0xFF));
    wave.handle(DMCEvent::Reset());
    let mut notices = Vec::new();
    wave.clock(&mapper, &mut notices);
    assert_eq!(notices, vec![ChannelEvent::LengthCounter(4080)]);
    assert_eq!(wave.output_level, 2);
    assert_eq!(wave.bits_remaining, 7);
    assert_eq!(wave.sample_address, 0xC001);
    for _ in 0..61 {
        wave.clock(&mapper, &mut notices);
    }
    assert_eq!(wave.output_level, 124);
    wave.clock(&mapper, &mut notices);
    assert_eq!(wave.output_level, 126);
    for _ in 0..50 {
        wave.clock(&mapper, &mut notices);
        assert_eq!(wave.output_level, 126);
    }

    let zeros = cartridge(|_| 0x00);
    let mut wave = DMCWave::new(RATE);
    wave.handle(DMCEvent::Delta(5));
    wave.handle(DMCEvent::SampleByteCount(0xFF));
    let mut notices = Vec::new();
    wave.clock(&zeros, &mut notices);
    assert_eq!(wave.output_level, 3);
    wave.clock(&zeros, &mut notices);
    assert_eq!(wave.output_level, 1);
    wave.clock(&zeros, &mut notices);
    assert_eq!(wave.output_level, 0);
    wave.clock(&zeros, &mut notices);
    assert_eq!(wave.output_level, 0);
}

#[test]
fn dmc_level_stays_in_range_under_arbitrary_bits() {
    // a pseudo-random cartridge
    let mapper = cartridge(|i| ((i as u32).wrapping_mul(2654435761) >> 13) as u8);
    let mut wave = DMCWave::new(RATE);
    wave.handle(DMCEvent::Loop(true));
    wave.handle(DMCEvent::SampleStartAddr(0xF0));
    wave.handle(DMCEvent::SampleByteCount(0xFF));
    wave.handle(DMCEvent::Reset());
    let mut notices = Vec::new();
    let mut moved = false;
    for _ in 0..100_000 {
        let before = wave.output_level;
        wave.clock(&mapper, &mut notices);
        assert!(wave.output_level <= 126);
        assert!(wave.sample_address >= 0x8000);
        let diff = (wave.output_level as i32 - before as i32).abs();
        assert!(diff == 2 || diff == 0);
        moved |= diff == 2;
    }
    assert!(moved);
}

#[test]
fn dmc_address_wraps_to_8000() {
    let mapper = cartridge(|i| (i & 0xFF) as u8);
    let mut wave = DMCWave::new(RATE);
    wave.handle(DMCEvent::SampleStartAddr(0xFF));
    wave.handle(DMCEvent::SampleByteCount(0xFF));
    assert_eq!(wave.sample_address, 0xFFC0);
    let mut notices = Vec::new();
    let mut addresses = Vec::new();
    for _ in 0..(8 * 66) {
        if wave.bits_remaining == 0 {
            addresses.push(wave.sample_address);
        }
        wave.clock(&mapper, &mut notices);
    }
    assert_eq!(addresses[0], 0xFFC0);
    assert_eq!(addresses[63], 0xFFFF);
    assert_eq!(addresses[64], 0x8000);
    assert_eq!(addresses[65], 0x8001);
    assert!(addresses.iter().all(|a| *a >= 0x8000));
}

#[test]
fn dmc_end_of_sample_loops_or_raises_irq() {
    let mapper = cartridge(|_| 0xAA);
    let mut wave = DMCWave::new(RATE);
    wave.handle(DMCEvent::IrqEnable(true));
    wave.handle(DMCEvent::SampleStartAddr(2));
    wave.handle(DMCEvent::SampleByteCount(0));
    let mut notices = Vec::new();
    wave.clock(&mapper, &mut notices);
    assert_eq!(notices, vec![ChannelEvent::LengthCounter(0), ChannelEvent::Irq()]);
    assert_eq!(wave.bytes_remaining, 0);
    for _ in 0..20 {
        wave.clock(&mapper, &mut notices);
    }
    assert_eq!(notices.len(), 2);
    assert_eq!(wave.bits_remaining, 0);

    let mut wave = DMCWave::new(RATE);
    wave.handle(DMCEvent::Loop(true));
    wave.handle(DMCEvent::IrqEnable(true));
    wave.handle(DMCEvent::SampleStartAddr(2));
    wave.handle(DMCEvent::SampleByteCount(0));
    let mut notices = Vec::new();
    for _ in 0..8 {
        wave.clock(&mapper, &mut notices);
    }
    assert_eq!(notices, vec![ChannelEvent::LengthCounter(1)]);
    assert_eq!(wave.sample_address, 0xC080);
    assert_eq!(wave.bytes_remaining, 1);
    wave.clock(&mapper, &mut notices);
    assert_eq!(notices.len(), 2);

    let mut wave = DMCWave::new(RATE);
    wave.handle(DMCEvent::SampleByteCount(0));
    let mut notices = Vec::new();
    wave.clock(&mapper, &mut notices);
    assert_eq!(notices, vec![ChannelEvent::LengthCounter(0)]);
}

#[test]
fn dmc_callback_clocks_at_the_table_rate() {
    let mapper = cartridge(|_| 0xFF);
    let mut wave = DMCWave::new(RATE);
    let events = vec![
        DMCEvent::Frequency(15),
        DMCEvent::SampleByteCount(0xFF),
        DMCEvent::Reset(),
    ];
    let (samples, notices) = wave.callback(&mapper, &events, 441);
    assert_eq!(samples.len(), 441);
    // 1789772.5 / 0x36 = 33143.9 Hz: 331 bit periods in a hundredth of a second
    let clocks = ((3_579_545u64 << 31) / (0x36 * 44100) * 441) >> 32;
    assert_eq!(clocks, 331);
    assert_eq!(notices.len(), 42);
    assert_eq!(notices[0], ChannelEvent::LengthCounter(4080));
    assert_eq!(samples[0], -64);
    assert_eq!(*samples.last().unwrap(), 126 - 64);
}

#[test]
fn dmc_parameter_events_are_idempotent() {
    let events = [
        DMCEvent::IrqEnable(true),
        DMCEvent::Loop(true),
        DMCEvent::Frequency(9),
        DMCEvent::Delta(33),
        DMCEvent::SampleStartAddr(7),
        DMCEvent::SampleByteCount(9),
        DMCEvent::Enable(false),
    ];
    let mapper = cartridge(|i| i as u8);
    for event in events {
        let mut once = DMCWave::new(RATE);
        let mut twice = once;
        once.handle(event);
        twice.handle(event);
        twice.handle(event);
        assert_eq!(once, twice);
        let mut a = Vec::new();
        let mut b = Vec::new();
        assert_eq!(once.next_sample(&mapper, &mut a), twice.next_sample(&mapper, &mut b));
        assert_eq!(a, b);
    }
}
