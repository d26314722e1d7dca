//! A stand-alone noise generator with a fixed feedback tap.
use vstd::prelude::*;
use crate::apu::units::{lemma_lfsr_next_valid, lfsr_next, lfsr_valid};

verus! {

/// The tap of the long sequence of 32767 steps.
pub const LONG_TAP: u8 = 1;

/// The tap of the short sequence of 93 steps.
pub const SHORT_TAP: u8 = 6;

/// A 15-bit shift register that feeds back bit 0 xor the bit at its tap.
#[derive(Debug, Clone, Copy, PartialEq, Eq, Structural)]
pub struct NoiseRandom {
    pub bit: u8,
    pub value: u16,
}

impl NoiseRandom {
    pub open spec fn wf(&self) -> bool {
        (self.bit == LONG_TAP || self.bit == SHORT_TAP) && lfsr_valid(self.value)
    }

    pub fn new_long() -> (random: Self)
        ensures
            random == (NoiseRandom { bit: LONG_TAP, value: 1 }),
            random.wf(),
    {
        NoiseRandom { bit: 1, value: 1 }
    }

    pub fn new_short() -> (random: Self)
        ensures
            random == (NoiseRandom { bit: SHORT_TAP, value: 1 }),
            random.wf(),
    {
        NoiseRandom { bit: 6, value: 1 }
    }

    /// Steps the register once and returns its new bit 0. The register
    /// never reaches its all-zero dead state.
    pub fn next(&mut self) -> (bit: bool)
        requires
            old(self).wf(),
        ensures
            final(self).wf(),
            final(self).bit == old(self).bit,
            final(self).value == lfsr_next(old(self).value, old(self).bit == LONG_TAP),
            bit == (final(self).value & 0x01 != 0),
    {
        proof {
            lemma_lfsr_next_valid(self.value, self.bit == LONG_TAP);
        }
        let tapped: u16 = if self.bit == 1 {
            (self.value >> 1) & 0x01
        } else {
            (self.value >> 6) & 0x01
        };
        let b: u16 = (self.value & 0x01) ^ tapped;
        self.value = self.value >> 1;
        self.value = self.value & 0x3FFF | b << 14;
        self.value & 0x01 != 0
    }
}

} // verus!
