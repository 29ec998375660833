//! Joypad register (0xFF00).
//!
//! Bits 5 and 4 of the register select the action buttons and the d-pad;
//! the low nibble reports the selected buttons, active low.

use vstd::prelude::*;

verus! {

/// Game Boy joypad buttons, by index 0-7.
#[derive(Debug, Clone, Copy, PartialEq, Eq)]
pub enum Button {
    A,
    B,
    Select,
    Start,
    Right,
    Left,
    Up,
    Down,
}

/// Index of a button: A=0, B=1, Select=2, Start=3, Right=4, Left=5, Up=6, Down=7.
pub open spec fn button_index(b: Button) -> u8 {
    match b {
        Button::A => 0,
        Button::B => 1,
        Button::Select => 2,
        Button::Start => 3,
        Button::Right => 4,
        Button::Left => 5,
        Button::Up => 6,
        Button::Down => 7,
    }
}

/// The button with index `i` (0-7).
pub open spec fn button_at(i: u8) -> Button {
    if i == 0 { Button::A }
    else if i == 1 { Button::B }
    else if i == 2 { Button::Select }
    else if i == 3 { Button::Start }
    else if i == 4 { Button::Right }
    else if i == 5 { Button::Left }
    else if i == 6 { Button::Up }
    else { Button::Down }
}

impl Button {
    /// The button with index `value`, or `None` when `value > 7`.
    pub fn from_u8(value: u8) -> (r: Option<Button>)
        ensures
            r is Some <==> value <= 7,
            r matches Some(b) ==> button_index(b) == value && b == button_at(value),
    {
        match value {
            0 => Some(Button::A),
            1 => Some(Button::B),
            2 => Some(Button::Select),
            3 => Some(Button::Start),
            4 => Some(Button::Right),
            5 => Some(Button::Left),
            6 => Some(Button::Up),
            7 => Some(Button::Down),
            _ => None,
        }
    }

    /// The index of this button (inverse of [`Button::from_u8`]).
    pub fn to_u8(self) -> (r: u8)
        ensures r == button_index(self),
    {
        match self {
            Button::A => 0,
            Button::B => 1,
            Button::Select => 2,
            Button::Start => 3,
            Button::Right => 4,
            Button::Left => 5,
            Button::Up => 6,
            Button::Down => 7,
        }
    }
}

/// Button states (true = pressed) and the two selection lines.
pub struct Joypad {
    pub a: bool,
    pub b: bool,
    pub select: bool,
    pub start: bool,
    pub right: bool,
    pub left: bool,
    pub up: bool,
    pub down: bool,
    /// Action buttons selected (register bit 5 written as 0).
    pub select_buttons: bool,
    /// D-pad selected (register bit 4 written as 0).
    pub select_dpad: bool,
}

/// Low-nibble bit that reads 1 unless one of the two selected lines reports a press.
pub open spec fn released_bit(bit: u8, sel_buttons: bool, button: bool, sel_dpad: bool, dpad: bool) -> u8 {
    if (sel_buttons && button) || (sel_dpad && dpad) { 0 } else { bit }
}

impl Joypad {
    /// Whether `button` is pressed.
    pub open spec fn pressed(self, button: Button) -> bool {
        match button {
            Button::A => self.a,
            Button::B => self.b,
            Button::Select => self.select,
            Button::Start => self.start,
            Button::Right => self.right,
            Button::Left => self.left,
            Button::Up => self.up,
            Button::Down => self.down,
        }
    }

    /// The register value: bits 7-6 set, bit 5 set unless the buttons are
    /// selected, bit 4 set unless the d-pad is selected, and low-nibble bit
    /// `i` clear exactly when a selected line has button `i` pressed
    /// (A/Right, B/Left, Select/Up, Start/Down).
    pub open spec fn read_spec(self) -> u8 {
        0xC0
            | (if self.select_buttons { 0u8 } else { 0x20 })
            | (if self.select_dpad { 0u8 } else { 0x10 })
            | released_bit(0x01, self.select_buttons, self.a, self.select_dpad, self.right)
            | released_bit(0x02, self.select_buttons, self.b, self.select_dpad, self.left)
            | released_bit(0x04, self.select_buttons, self.select, self.select_dpad, self.up)
            | released_bit(0x08, self.select_buttons, self.start, self.select_dpad, self.down)
    }

    /// The joypad with `button` set to `pressed`.
    pub open spec fn with_button(self, button: Button, pressed: bool) -> Self {
        match button {
            Button::A => Joypad { a: pressed, ..self },
            Button::B => Joypad { b: pressed, ..self },
            Button::Select => Joypad { select: pressed, ..self },
            Button::Start => Joypad { start: pressed, ..self },
            Button::Right => Joypad { right: pressed, ..self },
            Button::Left => Joypad { left: pressed, ..self },
            Button::Up => Joypad { up: pressed, ..self },
            Button::Down => Joypad { down: pressed, ..self },
        }
    }

    pub open spec fn initial() -> Self {
        Joypad {
            a: false, b: false, select: false, start: false,
            right: false, left: false, up: false, down: false,
            select_buttons: false, select_dpad: false,
        }
    }

    pub fn new() -> (r: Self)
        ensures r == Joypad::initial(),
    {
        Joypad {
            a: false,
            b: false,
            select: false,
            start: false,
            right: false,
            left: false,
            up: false,
            down: false,
            select_buttons: false,
            select_dpad: false,
        }
    }

    /// Record `button` as pressed or released; every other field is unchanged.
    pub fn set_button(&mut self, button: Button, pressed: bool)
        ensures
            final(self).pressed(button) == pressed,
            forall|o: Button| o != button ==> final(self).pressed(o) == old(self).pressed(o),
            final(self).select_buttons == old(self).select_buttons,
            final(self).select_dpad == old(self).select_dpad,
            *final(self) == old(self).with_button(button, pressed),
    {
        match button {
            Button::A => self.a = pressed,
            Button::B => self.b = pressed,
            Button::Select => self.select = pressed,
            Button::Start => self.start = pressed,
            Button::Right => self.right = pressed,
            Button::Left => self.left = pressed,
            Button::Up => self.up = pressed,
            Button::Down => self.down = pressed,
        }
    }

    /// Read the joypad register (see [`Joypad::read_spec`]).
    pub fn read(&self) -> (r: u8)
        ensures r == self.read_spec(),
    {
        let sb = self.select_buttons;
        let sd = self.select_dpad;
        let hi1: u8 = if sb { 0 } else { 0x20 };
        let hi2: u8 = if sd { 0 } else { 0x10 };
        let b0: u8 = if (sb && self.a) || (sd && self.right) { 0 } else { 0x01 };
        let b1: u8 = if (sb && self.b) || (sd && self.left) { 0 } else { 0x02 };
        let b2: u8 = if (sb && self.select) || (sd && self.up) { 0 } else { 0x04 };
        let b3: u8 = if (sb && self.start) || (sd && self.down) { 0 } else { 0x08 };
        0xC0 | hi1 | hi2 | b0 | b1 | b2 | b3
    }

    /// Write the joypad register: a 0 in bit 5 selects the action buttons, a 0
    /// in bit 4 selects the d-pad. Button states are unchanged.
    pub open spec fn write_spec(self, value: u8) -> Joypad {
        Joypad { select_buttons: value & 0x20 == 0, select_dpad: value & 0x10 == 0, ..self }
    }

    pub fn write(&mut self, value: u8)
        ensures *final(self) == old(self).write_spec(value),
    {
        self.select_buttons = value & 0x20 == 0;
        self.select_dpad = value & 0x10 == 0;
    }
}

/// Law: the joypad register always has bits 7 and 6 set, and with neither
/// line selected its low nibble reads 0xF whatever is pressed.
pub proof fn law_joypad_unselected_reads_released(j: Joypad)
    ensures
        j.read_spec() & 0xC0 == 0xC0,
        !j.select_buttons && !j.select_dpad ==> j.read_spec() & 0x0F == 0x0F,
{
    let x = j.read_spec();
    let h1: u8 = if j.select_buttons { 0u8 } else { 0x20 };
    let h2: u8 = if j.select_dpad { 0u8 } else { 0x10 };
    let b0 = released_bit(0x01, j.select_buttons, j.a, j.select_dpad, j.right);
    let b1 = released_bit(0x02, j.select_buttons, j.b, j.select_dpad, j.left);
    let b2 = released_bit(0x04, j.select_buttons, j.select, j.select_dpad, j.up);
    let b3 = released_bit(0x08, j.select_buttons, j.start, j.select_dpad, j.down);
    assert(((0xC0u8 | h1 | h2 | b0 | b1 | b2 | b3) & 0xC0) == 0xC0) by (bit_vector);
    if !j.select_buttons && !j.select_dpad {
        assert(b0 == 1 && b1 == 2 && b2 == 4 && b3 == 8);
        assert(((0xC0u8 | h1 | h2 | 1u8 | 2u8 | 4u8 | 8u8) & 0x0F) == 0x0F) by (bit_vector);
    }
}

/// The register bit of a button: bit `i` for index `i` or `i - 4`.
pub open spec fn button_bit(b: Button) -> u8 {
    (1u8 << (button_index(b) % 4)) as u8
}

/// A pressed button on a selected line (A, B, Select, Start with the
/// buttons selected; the d-pad with the d-pad selected) reads as 0 in its
/// bit.
pub proof fn law_joypad_selected_press_reads_low(j: Joypad, b: Button)
    requires
        j.pressed(b),
        button_index(b) < 4 ==> j.select_buttons,
        button_index(b) >= 4 ==> j.select_dpad,
    ensures
        j.read_spec() & button_bit(b) == 0,
{
    let h1: u8 = if j.select_buttons { 0u8 } else { 0x20 };
    let h2: u8 = if j.select_dpad { 0u8 } else { 0x10 };
    let b0 = released_bit(0x01, j.select_buttons, j.a, j.select_dpad, j.right);
    let b1 = released_bit(0x02, j.select_buttons, j.b, j.select_dpad, j.left);
    let b2 = released_bit(0x04, j.select_buttons, j.select, j.select_dpad, j.up);
    let b3 = released_bit(0x08, j.select_buttons, j.start, j.select_dpad, j.down);
    let x = j.read_spec();
    assert(x == 0xC0u8 | h1 | h2 | b0 | b1 | b2 | b3);
    assert(1u8 << 0u8 == 1u8 && 1u8 << 1u8 == 2u8 && 1u8 << 2u8 == 4u8 && 1u8 << 3u8 == 8u8) by (bit_vector);
    assert(x & 1 == b0 && x & 2 == b1 && x & 4 == b2 && x & 8 == b3) by (bit_vector)
        requires
            x == 0xC0u8 | h1 | h2 | b0 | b1 | b2 | b3,
            h1 == 0 || h1 == 0x20, h2 == 0 || h2 == 0x10,
            b0 == 0 || b0 == 1, b1 == 0 || b1 == 2, b2 == 0 || b2 == 4, b3 == 0 || b3 == 8;
}

} // verus!
