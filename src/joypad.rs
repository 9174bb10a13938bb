//! The button matrix behind register P1 (0xFF00).

use vstd::prelude::*;

verus! {

/// A button of the console. The host maps its own key events onto these.
#[derive(Clone, Copy, Debug, PartialEq, Eq, Structural)]
pub enum Button {
    Right,
    Left,
    Up,
    Down,
    A,
    B,
    Select,
    Start,
}

/// The bit of the joypad state byte that holds `b`: directions in the high
/// nibble, buttons in the low one.
pub open spec fn button_mask_spec(b: Button) -> u8 {
    match b {
        Button::Down => 0x80,
        Button::Up => 0x40,
        Button::Left => 0x20,
        Button::Right => 0x10,
        Button::Start => 0x08,
        Button::Select => 0x04,
        Button::B => 0x02,
        Button::A => 0x01,
    }
}

pub fn button_mask(b: Button) -> (r: u8)
    ensures
        r == button_mask_spec(b),
{
    match b {
        Button::Down => 0x80,
        Button::Up => 0x40,
        Button::Left => 0x20,
        Button::Right => 0x10,
        Button::Start => 0x08,
        Button::Select => 0x04,
        Button::B => 0x02,
        Button::A => 0x01,
    }
}

pub struct Joypad {
    /// Select lines written through P1 (bits 4 and 5).
    pub p1joyp: u8,
    /// One bit per button, 0 while it is held.
    pub state: u8,
    /// Key-press edge, latched until the CPU collects it into IF.
    pub irq: bool,
}

impl Joypad {
    /// The value of P1 as the CPU reads it.
    pub open spec fn read_spec(&self, address: u16) -> u8 {
        if address != 0xff00 {
            0xff
        } else if self.p1joyp & 0x10 == 0 {
            (self.p1joyp & 0xf0) | ((self.state >> 4u8) & 0x0f)
        } else if self.p1joyp & 0x20 == 0 {
            (self.p1joyp & 0xf0) | (self.state & 0x0f)
        } else {
            self.p1joyp
        }
    }

    /// The joypad after a CPU write: only the select bits 4..5 change.
    pub open spec fn write_spec(self, address: u16, value: u8) -> Joypad {
        if address == 0xff00 {
            Joypad { p1joyp: (self.p1joyp & 0xcf) | (value & 0x30), ..self }
        } else {
            self
        }
    }

    pub fn new() -> (r: Self)
        ensures
            r == (Joypad { p1joyp: 0xff, state: 0xff, irq: false }),
    {
        Joypad { p1joyp: 0xff, state: 0xff, irq: false }
    }

    /// Press `b`: its state bit goes to 0 and the joypad IRQ edge is raised.
    pub fn keydown(&mut self, b: Button)
        ensures
            *final(self) == (Joypad {
                state: old(self).state & !button_mask_spec(b),
                irq: true,
                ..*old(self)
            }),
    {
        self.state = self.state & !button_mask(b);
        self.irq = true;
    }

    /// Release `b`: its state bit goes back to 1.
    pub fn keyup(&mut self, b: Button)
        ensures
            *final(self) == (Joypad { state: old(self).state | button_mask_spec(b), ..*old(self) }),
    {
        self.state = self.state | button_mask(b);
    }

    pub fn write(&mut self, address: u16, value: u8)
        ensures
            *final(self) == old(self).write_spec(address, value),
    {
        if address == 0xff00 {
            self.p1joyp = (self.p1joyp & 0xcf) | (value & 0x30);
        }
    }

    pub fn read(&self, address: u16) -> (r: u8)
        ensures
            r == self.read_spec(address),
    {
        if address != 0xff00 {
            0xff
        } else if self.p1joyp & 0x10 == 0 {
            (self.p1joyp & 0xf0) | ((self.state >> 4) & 0x0f)
        } else if self.p1joyp & 0x20 == 0 {
            (self.p1joyp & 0xf0) | (self.state & 0x0f)
        } else {
            self.p1joyp
        }
    }
}

} // verus!
