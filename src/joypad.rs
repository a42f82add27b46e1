//! The joypad register at 0xFF00: a select latch written by the CPU and the
//! button matrix read back through it.
use vstd::prelude::*;

use crate::arithmetic::{bit_of, bit_set, pack5};

verus! {

/// A line of the register: 0 (selected or pressed) or 1.
#[derive(Clone, Copy, Debug, PartialEq, Eq, Structural)]
pub enum Status {
    Selected,
    Unselected,
}

pub open spec fn status_of(bit: bool) -> Status {
    if bit {
        Status::Unselected
    } else {
        Status::Selected
    }
}

impl From<bool> for Status {
    fn from(v: bool) -> (r: Self) {
        if v {
            Status::Unselected
        } else {
            Status::Selected
        }
    }
}

impl vstd::std_specs::convert::FromSpecImpl<bool> for Status {
    open spec fn obeys_from_spec() -> bool {
        true
    }

    open spec fn from_spec(v: bool) -> Status {
        status_of(v)
    }
}

/// The low six bits of the joypad register, each line active low.
#[derive(Clone, Copy, Debug, PartialEq, Eq, Structural)]
pub struct Buttons {
    /// Bit 5: the action-button column is selected.
    pub button: Status,
    /// Bit 4: the direction column is selected.
    pub direction: Status,
    /// Bit 3: Down or Start.
    pub down_start: Status,
    /// Bit 2: Up or Select.
    pub up_select: Status,
    /// Bit 1: Left or B.
    pub left_b: Status,
    /// Bit 0: Right or A.
    pub right_a: Status,
}

pub open spec fn buttons_of_byte(v: u8) -> Buttons {
    Buttons {
        button: status_of(bit_of(v, 5)),
        direction: status_of(bit_of(v, 4)),
        down_start: status_of(bit_of(v, 3)),
        up_select: status_of(bit_of(v, 2)),
        left_b: status_of(bit_of(v, 1)),
        right_a: status_of(bit_of(v, 0)),
    }
}

impl Buttons {
    /// The six register bits.
    pub open spec fn spec_byte(&self) -> u8 {
        ((if self.button == Status::Unselected { 32int } else { 0 }) + pack5(
            self.direction == Status::Unselected,
            self.down_start == Status::Unselected,
            self.up_select == Status::Unselected,
            self.left_b == Status::Unselected,
            self.right_a == Status::Unselected,
        )) as u8
    }
}

impl From<u8> for Buttons {
    fn from(v: u8) -> (r: Self) {
        Buttons {
            button: Status::from(bit_set(v, 5)),
            direction: Status::from(bit_set(v, 4)),
            down_start: Status::from(bit_set(v, 3)),
            up_select: Status::from(bit_set(v, 2)),
            left_b: Status::from(bit_set(v, 1)),
            right_a: Status::from(bit_set(v, 0)),
        }
    }
}

impl vstd::std_specs::convert::FromSpecImpl<u8> for Buttons {
    open spec fn obeys_from_spec() -> bool {
        true
    }

    open spec fn from_spec(v: u8) -> Buttons {
        buttons_of_byte(v)
    }
}

impl From<Buttons> for u8 {
    fn from(b: Buttons) -> (r: u8) {
        let mut v: u8 = 0;
        if b.button == Status::Unselected {
            v = v + 32;
        }
        if b.direction == Status::Unselected {
            v = v + 16;
        }
        if b.down_start == Status::Unselected {
            v = v + 8;
        }
        if b.up_select == Status::Unselected {
            v = v + 4;
        }
        if b.left_b == Status::Unselected {
            v = v + 2;
        }
        if b.right_a == Status::Unselected {
            v = v + 1;
        }
        v
    }
}

impl vstd::std_specs::convert::FromSpecImpl<Buttons> for u8 {
    open spec fn obeys_from_spec() -> bool {
        true
    }

    open spec fn from_spec(b: Buttons) -> u8 {
        b.spec_byte()
    }
}

/// Bit of each key in the pressed mask: the action buttons in bits 0-3
/// (A, B, Select, Start) and the directions in bits 4-7 (Right, Left, Up,
/// Down).
pub open spec fn key_mask(key: char) -> u8 {
    if key == 'a' {
        1
    } else if key == 'b' {
        2
    } else if key == ' ' {
        4
    } else if key == '\n' {
        8
    } else if key == 'l' {
        16
    } else if key == 'h' {
        32
    } else if key == 'k' {
        64
    } else if key == 'j' {
        128
    } else {
        0
    }
}

/// Whether line `k` (0-3) of the register reads 0: the key on it is pressed
/// in a selected column.
pub open spec fn line_low(select: Buttons, pressed: u8, k: nat) -> bool {
    (select.button == Status::Selected && bit_of(pressed, k)) || (select.direction
        == Status::Selected && bit_of(pressed, k + 4))
}

/// What a read of 0xFF00 returns: bits 7-6 set, bits 5-4 as latched, and
/// the selected columns on bits 3-0, active low.
pub open spec fn joypad_value(select: Buttons, pressed: u8) -> u8 {
    (0xC0 + (if select.button == Status::Unselected { 32int } else { 0 }) + pack5(
        select.direction == Status::Unselected,
        !line_low(select, pressed, 3),
        !line_low(select, pressed, 2),
        !line_low(select, pressed, 1),
        !line_low(select, pressed, 0),
    )) as u8
}

#[derive(Clone, Copy, Debug, PartialEq, Eq, Structural)]
pub struct JoyPad {
    /// The register as last written.
    pub buttons: Buttons,
    /// Keys held now, one bit each.
    pub pressed: u8,
}

impl JoyPad {
    /// No column selected and no key held.
    pub fn new() -> (r: Self)
        ensures
            r.buttons == buttons_of_byte(0x3F),
            r.pressed == 0,
    {
        JoyPad { buttons: Buttons::from(0x3F), pressed: 0 }
    }

    /// Records the key the host reported, if any, as the one key held.
    pub fn handle_key_event(&mut self, key: Option<char>)
        ensures
            final(self).buttons == old(self).buttons,
            final(self).pressed == match key {
                Some(c) => key_mask(c),
                None => 0,
            },
    {
        self.pressed = match key {
            Some(c) => if c == 'a' {
                1
            } else if c == 'b' {
                2
            } else if c == ' ' {
                4
            } else if c == '\n' {
                8
            } else if c == 'l' {
                16
            } else if c == 'h' {
                32
            } else if c == 'k' {
                64
            } else if c == 'j' {
                128
            } else {
                0
            },
            None => 0,
        };
    }

    /// Reads 0xFF00.
    pub fn read(&self) -> (r: u8)
        ensures
            r == joypad_value(self.buttons, self.pressed),
    {
        let s = self.buttons;
        let p = self.pressed;
        let bsel = s.button == Status::Selected;
        let dsel = s.direction == Status::Selected;
        let l3 = (bsel && bit_set(p, 3)) || (dsel && bit_set(p, 7));
        let l2 = (bsel && bit_set(p, 2)) || (dsel && bit_set(p, 6));
        let l1 = (bsel && bit_set(p, 1)) || (dsel && bit_set(p, 5));
        let l0 = (bsel && bit_set(p, 0)) || (dsel && bit_set(p, 4));
        let mut v: u8 = 0xC0;
        if !bsel {
            v = v + 32;
        }
        if !dsel {
            v = v + 16;
        }
        if !l3 {
            v = v + 8;
        }
        if !l2 {
            v = v + 4;
        }
        if !l1 {
            v = v + 2;
        }
        if !l0 {
            v = v + 1;
        }
        v
    }

    /// Writes 0xFF00: latches the select lines.
    pub fn write(&mut self, data: u8)
        ensures
            final(self).pressed == old(self).pressed,
            final(self).buttons == buttons_of_byte(data),
    {
        self.buttons = Buttons::from(data);
    }
}

} // verus!
