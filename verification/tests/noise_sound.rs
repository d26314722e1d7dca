use nes_emu::noise_sound::NoiseRandom;

#[test]
fn stand_alone_long_generator_has_period_32767() {
    let mut random = NoiseRandom::new_long();
    assert_eq!((random.bit, random.value), (1, 1));
    let mut steps = 0u32;
    loop {
        random.next();
        steps += 1;
        if random.value == 1 {
            break;
        }
    }
    assert_eq!(steps, 32767);
}

#[test]
fn stand_alone_short_generator_has_period_93() {
    let mut random = NoiseRandom::new_short();
    assert_eq!((random.bit, random.value), (6, 1));
    let mut steps = 0u32;
    loop {
        random.next();
        steps += 1;
        if random.value == 1 {
            break;
        }
    }
    assert_eq!(steps, 93);
}

#[test]
fn stand_alone_generator_returns_bit_zero() {
    let mut random = NoiseRandom { bit: 1, value: 0b110 };
    assert!(random.next());
    assert_eq!(random.value, 0x4003);
}
