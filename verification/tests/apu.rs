use nes_emu::apu::dmc::DMCEvent;
use nes_emu::apu::events::{
    ChannelEvent, NoiseEvent, NoiseKind, NoiseNote, SquareEvent, SquareNote, TriangleEvent,
    TriangleNote,
};
use nes_emu::apu::units::{EnvelopeData, LengthCounterData, LinearCounterData, SweepData};
use nes_emu::apu::{
    Ch1Register, Ch2Register, Ch3Register, Ch4Register, FrameCounter, NesAPU, StatusRegister,
};

#[test]
fn ch1_register_decodes_its_fields() {
    let mut register = Ch1Register::new();
    register.write(0x4000, 0b1011_0110);
    assert_eq!(register.duty, 2);
    assert!(!register.key_off_counter_flag);
    assert!(!register.envelope_flag);
    assert_eq!(register.volume, 6);
    register.write(0x4000, 0b0100_1111);
    assert_eq!(register.duty, 1);
    assert!(register.key_off_counter_flag);
    assert!(register.envelope_flag);
    assert_eq!(register.volume, 15);
    register.write(0x4001, 0b1101_1011);
    assert!(register.sweep_enable_flag);
    assert_eq!(register.sweep_timer_count, 5);
    assert_eq!(register.sweep_change_direction, 1);
    assert_eq!(register.sweep_change_amount, 3);
    register.write(0x4002, 0xAB);
    assert_eq!(register.frequency, 0x0AB);
    register.write(0x4003, 0b1010_1101);
    assert_eq!(register.frequency, 0x5AB);
    assert_eq!(register.key_off_count, 0b10101);
    register.write(0x4002, 0x12);
    assert_eq!(register.frequency, 0x512);
}

#[test]
fn ch2_register_decodes_like_ch1() {
    let mut first = Ch1Register::new();
    let mut second = Ch2Register::new();
    for (offset, value) in [(0u16, 0x7Fu8), (1, 0x9A), (2, 0x34), (3, 0xFF)] {
        first.write(0x4000 + offset, value);
        second.write(0x4004 + offset, value);
    }
    assert_eq!(
        (first.volume, first.duty, first.frequency, first.key_off_count),
        (second.volume, second.duty, second.frequency, second.key_off_count)
    );
    assert_eq!(second.frequency, 0x734);
    assert_eq!(second.key_off_count, 31);
    assert_eq!(second.sweep_timer_count, 1);
}

#[test]
fn ch3_and_ch4_registers_decode_their_fields() {
    let mut triangle = Ch3Register::new();
    triangle.write(0x4008, 0xFF);
    assert_eq!(triangle.length, 0x7F);
    assert!(!triangle.key_off_counter_flag);
    triangle.write(0x4008, 0x05);
    assert!(triangle.key_off_counter_flag);
    triangle.write(0x4009, 0xFF);
    triangle.write(0x400A, 0xCD);
    triangle.write(0x400B, 0b0001_0011);
    assert_eq!(triangle.frequency, 0x3CD);
    assert_eq!(triangle.key_off_count, 2);

    let mut noise = Ch4Register::new();
    noise.write(0x400C, 0b0011_1001);
    assert_eq!(noise.volume, 9);
    assert!(!noise.envelope_flag);
    assert!(!noise.key_off_counter_flag);
    noise.write(0x400E, 0x8D);
    assert_eq!(noise.noise_hz, 0x0D);
    assert_eq!(noise.kind, NoiseKind::Short);
    noise.write(0x400E, 0x03);
    assert_eq!(noise.kind, NoiseKind::Long);
    noise.write(0x400F, 0xF8);
    assert_eq!(noise.key_off_count, 31);
}

#[test]
fn pulse_writes_send_their_events_in_order() {
    let mut apu = NesAPU::new();
    apu.write_1ch(0x4000, 0b1001_1111);
    assert_eq!(
        apu.ch1_events,
        vec![
            SquareEvent::Note(SquareNote { duty: 2 }),
            SquareEvent::Envelope(EnvelopeData { rate: 15, enabled_sound: false, loop_flag: false }),
            SquareEvent::LengthCounter(LengthCounterData { enabled: true, counter_for_reset: 0x0A }),
        ]
    );
    apu.ch1_events.clear();
    apu.write_1ch(0x4001, 0b1010_1010);
    assert_eq!(
        apu.ch1_events,
        vec![SquareEvent::Sweep(SweepData {
            change_amount: 2,
            change_direction: 1,
            timer_count: 2,
            enabled: true
        })]
    );
    apu.ch1_events.clear();
    apu.write_1ch(0x4002, 0x54);
    assert_eq!(apu.ch1_events, vec![SquareEvent::ChangeFrequency(0x054)]);
    apu.ch1_events.clear();
    apu.write_1ch(0x4003, 0b0000_1001);
    assert_eq!(
        apu.ch1_events,
        vec![
            SquareEvent::LengthCounter(LengthCounterData { enabled: true, counter_for_reset: 0xFE }),
            SquareEvent::ChangeFrequency(0x154),
            SquareEvent::Reset(),
        ]
    );
    assert!(apu.ch2_events.is_empty());

    apu.write_2ch(0x4007, 0x00);
    assert_eq!(apu.ch2_events.len(), 3);
    assert_eq!(apu.ch2_events[2], SquareEvent::Reset());
}

#[test]
fn triangle_noise_and_dmc_writes_send_their_events() {
    let mut apu = NesAPU::new();
    apu.write_3ch(0x4008, 0x85);
    assert_eq!(
        apu.ch3_events,
        vec![
            TriangleEvent::LinearCounter(LinearCounterData { counter_for_reset: 5, enabled: false }),
            TriangleEvent::LengthCounter(LengthCounterData { enabled: false, counter_for_reset: 0x0A }),
        ]
    );
    apu.ch3_events.clear();
    apu.write_3ch(0x400A, 0x22);
    assert_eq!(apu.ch3_events, vec![TriangleEvent::Note(TriangleNote { frequency: 0x22 })]);
    apu.ch3_events.clear();
    apu.write_3ch(0x400B, 0x11);
    assert_eq!(
        apu.ch3_events,
        vec![
            TriangleEvent::LengthCounter(LengthCounterData { enabled: false, counter_for_reset: 0x14 }),
            TriangleEvent::Note(TriangleNote { frequency: 0x122 }),
            TriangleEvent::Reset(),
        ]
    );

    apu.write_4ch(0x400C, 0x07);
    assert_eq!(
        apu.ch4_events,
        vec![
            NoiseEvent::Envelope(EnvelopeData { rate: 7, enabled_sound: true, loop_flag: false }),
            NoiseEvent::LengthCounter(LengthCounterData { enabled: true, counter_for_reset: 0x0A }),
        ]
    );
    apu.ch4_events.clear();
    apu.write_4ch(0x400E, 0x85);
    assert_eq!(
        apu.ch4_events,
        vec![NoiseEvent::Note(NoiseNote { hz: 5, kind: NoiseKind::Short })]
    );
    apu.ch4_events.clear();
    apu.write_4ch(0x400F, 0x08);
    assert_eq!(
        apu.ch4_events,
        vec![
            NoiseEvent::LengthCounter(LengthCounterData { enabled: true, counter_for_reset: 0xFE }),
            NoiseEvent::Reset(),
        ]
    );

    apu.write_dmc(0x4010, 0xCF);
    apu.write_dmc(0x4011, 0xFF);
    apu.write_dmc(0x4012, 0x10);
    apu.write_dmc(0x4013, 0x20);
    assert_eq!(
        apu.dmc_events,
        vec![
            DMCEvent::IrqEnable(true),
            DMCEvent::Loop(true),
            DMCEvent::Frequency(15),
            DMCEvent::Delta(0x7F),
            DMCEvent::SampleStartAddr(0x10),
            DMCEvent::SampleByteCount(0x20),
            DMCEvent::Reset(),
        ]
    );
}

#[test]
fn status_write_enables_each_channel() {
    let mut apu = NesAPU::new();
    apu.write_status(0b0001_0101);
    assert_eq!(apu.ch1_events, vec![SquareEvent::Enable(true)]);
    assert_eq!(apu.ch2_events, vec![SquareEvent::Enable(false)]);
    assert_eq!(apu.ch3_events, vec![TriangleEvent::Enable(true)]);
    assert_eq!(apu.ch4_events, vec![NoiseEvent::Enable(false)]);
    assert_eq!(apu.dmc_events, vec![DMCEvent::Enable(true)]);
    assert_eq!(apu.status.bits, 0b0001_0101);
    // the written bits 6 and 7 raise no interrupt
    apu.write_status(0xFF);
    assert_eq!(apu.status.bits, 0x1F);
    assert!(!apu.irq());
}

#[test]
fn frame_counter_register() {
    let mut counter = FrameCounter::new();
    assert_eq!(counter.mode(), 4);
    assert!(counter.irq());
    counter.update(0x80);
    assert_eq!(counter.mode(), 5);
    assert!(counter.irq());
    counter.update(0x40);
    assert_eq!(counter.mode(), 4);
    assert!(!counter.irq());
    counter.update(0xC0);
    assert_eq!(counter.mode(), 5);
    assert!(!counter.irq());

    let mut status = StatusRegister::new();
    assert_eq!(status.bits, 0);
    status.update(0x5A);
    assert_eq!(status.bits, 0x5A);
    status.insert(0x80);
    assert_eq!(status.bits, 0xDA);
    status.remove(0x40);
    assert_eq!(status.bits, 0x9A);
}

fn step(apu: &mut NesAPU) {
    // one frame interval in ticks of at most 255 cycles
    let mut left = 7457usize;
    while left > 0 {
        let cycles = left.min(200);
        apu.tick(cycles as u8);
        left -= cycles;
    }
}

fn take(apu: &mut NesAPU) -> (Vec<SquareEvent>, Vec<TriangleEvent>, Vec<NoiseEvent>) {
    assert_eq!(apu.ch1_events, apu.ch2_events);
    let events = (apu.ch1_events.clone(), apu.ch3_events.clone(), apu.ch4_events.clone());
    apu.ch1_events.clear();
    apu.ch2_events.clear();
    apu.ch3_events.clear();
    apu.ch4_events.clear();
    assert!(apu.dmc_events.is_empty());
    events
}

#[test]
fn sequencer_steps_once_per_7457_cycles() {
    let mut apu = NesAPU::new();
    for _ in 0..29 {
        apu.tick(255);
    }
    assert_eq!(apu.cycles, 7395);
    assert_eq!(apu.counter, 0);
    assert!(apu.ch1_events.is_empty());
    apu.tick(61);
    assert_eq!(apu.cycles, 7456);
    assert_eq!(apu.counter, 0);
    apu.tick(1);
    assert_eq!(apu.cycles, 0);
    assert_eq!(apu.counter, 1);
    assert_eq!(apu.ch1_events, vec![SquareEvent::EnvelopeTick()]);
    apu.tick(255);
    assert_eq!(apu.cycles, 255);
}

#[test]
fn four_step_sequence() {
    let mut apu = NesAPU::new();
    let quarter = (
        vec![SquareEvent::EnvelopeTick()],
        vec![TriangleEvent::LinearCounterTick()],
        vec![NoiseEvent::EnvelopeTick()],
    );
    let half = (
        vec![
            SquareEvent::LengthCounterTick(),
            SquareEvent::SweepTick(),
            SquareEvent::EnvelopeTick(),
        ],
        vec![TriangleEvent::LengthCounterTick(), TriangleEvent::LinearCounterTick()],
        vec![NoiseEvent::LengthCounterTick(), NoiseEvent::EnvelopeTick()],
    );
    for _ in 0..3 {
        step(&mut apu);
        assert_eq!(take(&mut apu), quarter);
        assert_eq!(apu.counter, 1);
        assert!(!apu.irq());
        step(&mut apu);
        assert_eq!(take(&mut apu), half);
        step(&mut apu);
        assert_eq!(take(&mut apu), quarter);
        assert!(!apu.irq());
        step(&mut apu);
        assert_eq!(take(&mut apu), half);
        assert_eq!(apu.counter, 0);
        assert!(apu.irq());
        assert_eq!(apu.read_status() & 0x40, 0x40);
    }
}

#[test]
fn four_step_sequence_with_inhibit_raises_no_irq() {
    let mut apu = NesAPU::new();
    apu.write_frame_counter(0x40);
    for _ in 0..8 {
        step(&mut apu);
        assert!(!apu.irq());
    }
    assert_eq!(apu.counter, 0);
}

#[test]
fn five_step_sequence() {
    let mut apu = NesAPU::new();
    apu.write_frame_counter(0x80);
    let nothing = (Vec::new(), Vec::new(), Vec::new());
    let quarter = (
        vec![SquareEvent::EnvelopeTick()],
        vec![TriangleEvent::LinearCounterTick()],
        vec![NoiseEvent::EnvelopeTick()],
    );
    let half = (
        vec![
            SquareEvent::LengthCounterTick(),
            SquareEvent::SweepTick(),
            SquareEvent::EnvelopeTick(),
        ],
        vec![TriangleEvent::LengthCounterTick(), TriangleEvent::LinearCounterTick()],
        vec![NoiseEvent::LengthCounterTick(), NoiseEvent::EnvelopeTick()],
    );
    for _ in 0..2 {
        step(&mut apu);
        assert_eq!(take(&mut apu), half);
        step(&mut apu);
        assert_eq!(take(&mut apu), quarter);
        step(&mut apu);
        assert_eq!(take(&mut apu), half);
        step(&mut apu);
        assert_eq!(take(&mut apu), quarter);
        assert_eq!(apu.counter, 4);
        step(&mut apu);
        assert_eq!(take(&mut apu), nothing);
        assert_eq!(apu.counter, 0);
        assert!(!apu.irq());
    }
}

#[test]
fn five_step_mode_never_raises_frame_irq_in_10000_cycles() {
    for value in [0x80u8, 0xC0] {
        let mut apu = NesAPU::new();
        apu.write_frame_counter(value);
        for _ in 0..10_000 {
            apu.tick(1);
            assert!(!apu.irq());
            assert_eq!(apu.status.bits & 0x40, 0);
        }
        assert_eq!(apu.counter, 1);
        assert_eq!(apu.cycles, 10_000 - 7457);
        for _ in 0..100_000 {
            apu.tick(7);
            assert!(!apu.irq());
        }
        assert_eq!(apu.read_status() & 0x40, 0);
    }
}

#[test]
fn frame_counter_write_restarts_the_sequence() {
    let mut apu = NesAPU::new();
    step(&mut apu);
    apu.tick(100);
    assert_eq!((apu.counter, apu.cycles), (1, 100));
    apu.write_frame_counter(0x00);
    assert_eq!((apu.counter, apu.cycles), (0, 0));
    assert_eq!(apu.frame_counter.bits, 0);
}

#[test]
fn status_read_clears_frame_irq_exactly_once() {
    let mut apu = NesAPU::new();
    for _ in 0..4 {
        step(&mut apu);
    }
    assert!(apu.irq());
    assert_eq!(apu.read_status(), 0x40);
    assert!(!apu.irq());
    assert_eq!(apu.read_status(), 0x00);
    assert_eq!(apu.read_status() & 0x40, 0);
    // a new frame interrupt sets the bit again
    for _ in 0..4 {
        step(&mut apu);
    }
    assert_eq!(apu.read_status() & 0x40, 0x40);
    assert_eq!(apu.read_status() & 0x40, 0);
}

#[test]
fn status_read_reports_the_latest_counters() {
    let mut apu = NesAPU::new();
    assert_eq!(apu.read_status(), 0);
    apu.ch1_notices.push(ChannelEvent::LengthCounter(3));
    apu.ch1_notices.push(ChannelEvent::LengthCounter(2));
    apu.ch3_notices.push(ChannelEvent::LengthCounter(9));
    apu.dmc_notices.push(ChannelEvent::LengthCounter(100));
    assert_eq!(apu.read_status(), 0b0001_0101);
    assert_eq!(apu.ch1_length_counter, 2);
    assert_eq!(apu.ch3_length_counter, 9);
    assert_eq!(apu.dmc_sample_byte_count, 100);
    assert!(apu.ch1_notices.is_empty() && apu.dmc_notices.is_empty());
    // the values are kept until new ones arrive
    assert_eq!(apu.read_status(), 0b0001_0101);
    apu.ch1_notices.push(ChannelEvent::LengthCounter(0));
    apu.ch2_notices.push(ChannelEvent::LengthCounter(1));
    apu.ch4_notices.push(ChannelEvent::LengthCounter(1));
    assert_eq!(apu.read_status(), 0b0001_1110);
}

#[test]
fn dmc_irq_shows_in_bit_7_until_the_status_is_written() {
    let mut apu = NesAPU::new();
    apu.dmc_notices.push(ChannelEvent::LengthCounter(0));
    apu.dmc_notices.push(ChannelEvent::Irq());
    assert!(!apu.irq());
    apu.receive_events();
    assert!(apu.irq());
    assert_eq!(apu.read_status(), 0x80);
    assert_eq!(apu.read_status(), 0x80);
    apu.write_status(0x00);
    assert!(!apu.irq());
    assert_eq!(apu.read_status(), 0x00);
    // an interrupt request on another channel's queue is not one
    apu.ch1_notices.push(ChannelEvent::Irq());
    apu.receive_events();
    assert!(!apu.irq());
}

#[test]
fn tick_takes_in_the_notifications() {
    let mut apu = NesAPU::new();
    apu.ch2_notices.push(ChannelEvent::LengthCounter(7));
    apu.tick(10);
    assert_eq!(apu.ch2_length_counter, 0);
    step(&mut apu);
    assert_eq!(apu.ch2_length_counter, 7);
    assert!(apu.ch2_notices.is_empty());
}
