//! A controller at $4016: a strobe and a shift register of eight
//! buttons.
use vstd::prelude::*;

verus! {

/// The buttons of a controller, one bit each, in the order in which the
/// controller reports them from bit 0 on.
pub struct JoypadButton {}

impl JoypadButton {
    pub const RIGHT: u8 = 0b1000_0000;

    pub const LEFT: u8 = 0b0100_0000;

    pub const DOWN: u8 = 0b0010_0000;

    pub const UP: u8 = 0b0001_0000;

    pub const START: u8 = 0b0000_1000;

    pub const SELECT: u8 = 0b0000_0100;

    pub const BUTTON_B: u8 = 0b0000_0010;

    pub const BUTTON_A: u8 = 0b0000_0001;
}

/// What the shifts and masks on the button bits amount to.
pub proof fn lemma_button_bit(status: u8, index: u8)
    by (bit_vector)
    requires
        index <= 7,
    ensures
        (status & (1u8 << index)) >> index <= 1,
        (status & (1u8 << index)) >> index == (status >> index) & 1,
{
}

/// One controller.
#[derive(Debug, Clone, Copy, PartialEq, Eq, Structural)]
pub struct Joypad {
    /// While set, every read reports button A.
    pub strobe: bool,
    /// The button that the next read reports, 8 when all are reported.
    pub button_index: u8,
    pub button_status: u8,
}

impl Joypad {
    pub open spec fn wf(&self) -> bool {
        self.button_index <= 8
    }

    pub fn new() -> (joypad: Self)
        ensures
            joypad == (Joypad { strobe: false, button_index: 0, button_status: 0 }),
            joypad.wf(),
    {
        Joypad { strobe: false, button_index: 0, button_status: 0 }
    }

    /// The controller after a write to $4016: bit 0 is the strobe, and
    /// a set strobe starts the report over.
    pub open spec fn spec_write(self, data: u8) -> Self {
        let strobe = data & 1 == 1;
        Joypad {
            strobe,
            button_index: if strobe {
                0
            } else {
                self.button_index
            },
            ..self
        }
    }

    pub fn write(&mut self, data: u8)
        requires
            old(self).wf(),
        ensures
            *final(self) == old(self).spec_write(data),
            final(self).wf(),
    {
        self.strobe = data & 1 == 1;
        if self.strobe {
            self.button_index = 0;
        }
    }

    /// What a read of $4016 returns: the state of the button that is
    /// due, and 1 once all eight are reported.
    pub open spec fn spec_read_value(self) -> u8 {
        if self.button_index > 7 {
            1
        } else {
            (self.button_status >> self.button_index) & 1
        }
    }

    /// The controller after a read of $4016: the report moves on to the
    /// next button unless the strobe is set.
    pub open spec fn spec_read(self) -> Self {
        if !self.strobe && self.button_index <= 7 {
            Joypad { button_index: (self.button_index + 1) as u8, ..self }
        } else {
            self
        }
    }

    pub fn read(&mut self) -> (response: u8)
        requires
            old(self).wf(),
        ensures
            response == old(self).spec_read_value(),
            response <= 1,
            *final(self) == old(self).spec_read(),
            final(self).wf(),
    {
        if self.button_index > 7 {
            return 1;
        }
        proof {
            lemma_button_bit(self.button_status, self.button_index);
        }
        let response = (self.button_status & (1u8 << self.button_index)) >> self.button_index;
        if !self.strobe && self.button_index <= 7 {
            self.button_index += 1;
        }
        response
    }

    /// Records that the buttons in `button` are pressed or released.
    pub fn set_button_pressed_status(&mut self, button: u8, pressed: bool)
        ensures
            final(self).button_status == if pressed {
                old(self).button_status | button
            } else {
                old(self).button_status & !button
            },
            final(self).strobe == old(self).strobe,
            final(self).button_index == old(self).button_index,
    {
        if pressed {
            self.button_status = self.button_status | button;
        } else {
            self.button_status = self.button_status & !button;
        }
    }
}

} // verus!
