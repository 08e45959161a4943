//! The joypad register: two select lines choose which half of the button
//! matrix the low nibble shows.

use vstd::prelude::*;

verus! {

#[derive(Clone, Copy, Debug, PartialEq, Eq, Structural)]
pub struct Joypad {
    /// Bits 7..4: down, up, left, right; bits 3..0: start, select, B, A.
    /// A 0 bit is a pressed button.
    pub pressed: u8,
    /// Bit 5 of the register: set when the action buttons are not selected.
    pub inverse_select_action: bool,
    /// Bit 4 of the register: set when the direction pad is not selected.
    pub inverse_select_dpad: bool,
}

impl Joypad {
    pub open spec fn power_on() -> Joypad {
        Joypad { pressed: 0xFF, inverse_select_action: true, inverse_select_dpad: true }
    }

    /// The four input lines: each selected half of the matrix pulls its
    /// pressed buttons low; with both halves selected a line is low when
    /// either button on it is pressed.
    pub open spec fn lines(self) -> u8 {
        let action: u8 = if self.inverse_select_action { 0x0F } else { self.pressed % 16 };
        let dpad: u8 = if self.inverse_select_dpad { 0x0F } else { self.pressed / 16 };
        action & dpad
    }

    /// `0b11xx_xxxx`: bits 5 and 4 are the select lines as written, the low
    /// nibble the input lines.
    pub open spec fn read_spec(self) -> u8 {
        (0xC0 + (if self.inverse_select_action { 32int } else { 0int })
            + (if self.inverse_select_dpad { 16int } else { 0int }) + self.lines()) as u8
    }

    pub open spec fn write_spec(self, value: u8) -> Joypad {
        Joypad {
            inverse_select_action: (value / 32) % 2 == 1,
            inverse_select_dpad: (value / 16) % 2 == 1,
            ..self
        }
    }

    pub open spec fn with_buttons(self, pressed: u8) -> Joypad {
        Joypad { pressed, ..self }
    }

    /// Whether changing the buttons to `pressed` pulls an input line low that
    /// was high before, which requests the joypad interrupt.
    pub open spec fn falling_edge(self, pressed: u8) -> bool {
        self.lines() & ((15 - self.with_buttons(pressed).lines()) as u8) != 0
    }

    pub fn new() -> (j: Joypad)
        ensures
            j == Self::power_on(),
    {
        Joypad { pressed: 0xFF, inverse_select_action: true, inverse_select_dpad: true }
    }

    fn input_lines(&self) -> (lo: u8)
        ensures
            lo == self.lines(),
            lo <= 15,
    {
        let action: u8 = if self.inverse_select_action { 0x0F } else { self.pressed % 16 };
        let dpad: u8 = if self.inverse_select_dpad { 0x0F } else { self.pressed / 16 };
        assert(action & dpad <= 15) by (bit_vector)
            requires
                action <= 15,
        ;
        action & dpad
    }

    /// Sets the button state and says whether the joypad interrupt is
    /// requested.
    pub fn set_buttons(&mut self, pressed: u8) -> (interrupt: bool)
        ensures
            *final(self) == old(self).with_buttons(pressed),
            interrupt == old(self).falling_edge(pressed),
    {
        let before = self.input_lines();
        self.pressed = pressed;
        let after = self.input_lines();
        before & (15 - after) != 0
    }

    pub fn read(&self) -> (b: u8)
        ensures
            b == self.read_spec(),
            b >= 0xC0,
    {
        let lo = self.input_lines();
        let action: u8 = if self.inverse_select_action { 32 } else { 0 };
        let dpad: u8 = if self.inverse_select_dpad { 16 } else { 0 };
        0xC0 + action + dpad + lo
    }

    pub fn write(&mut self, value: u8)
        ensures
            *final(self) == old(self).write_spec(value),
    {
        self.inverse_select_action = (value / 32) % 2 == 1;
        self.inverse_select_dpad = (value / 16) % 2 == 1;
    }
}

/// The register reads back the two select bits as written, above them two
/// set bits, below them the four input lines.
pub proof fn lemma_select_bits_read_back(j: Joypad, value: u8)
    ensures
        j.write_spec(value).read_spec() / 16 == 12 + (value / 16) % 4,
        j.write_spec(value).read_spec() % 16 == j.write_spec(value).lines(),
        j.write_spec(value).pressed == j.pressed,
{
    let w = j.write_spec(value);
    let action: u8 = if w.inverse_select_action { 0x0F } else { w.pressed % 16 };
    let dpad: u8 = if w.inverse_select_dpad { 0x0F } else { w.pressed / 16 };
    assert(action & dpad <= 15) by (bit_vector)
        requires
            action <= 15,
    ;
}

} // verus!
