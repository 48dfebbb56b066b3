use vstd::prelude::*;

use crate::bits::{lemma_clear_set_bit, lemma_u8};
use crate::conf::Error;

verus! {

/// Which buttons are held down.
#[derive(Default, Clone, Copy, PartialEq, Eq, Structural, Debug)]
pub struct JoypadInputRequest {
    pub start: bool,
    pub select: bool,
    pub b: bool,
    pub a: bool,
    pub down: bool,
    pub up: bool,
    pub left: bool,
    pub right: bool,
}

impl JoypadInputRequest {
    pub fn new() -> (r: JoypadInputRequest)
        ensures
            !r.start && !r.select && !r.b && !r.a && !r.down && !r.up && !r.left && !r.right,
    {
        JoypadInputRequest {
            start: false,
            select: false,
            b: false,
            a: false,
            down: false,
            up: false,
            left: false,
            right: false,
        }
    }
}

/// The button group that P1 reads.
#[derive(Clone, Copy, PartialEq, Eq, Structural, Debug)]
pub enum ButtonSelector {
    StartSelectBA,
    DownUpLeftRight,
    NoButtons,
}

/// The selector that bits 4-5 of a P1 write pick.
pub open spec fn selector_of(value: u8) -> ButtonSelector {
    let s = (value / 16) % 4;
    if s == 1 {
        ButtonSelector::StartSelectBA
    } else if s == 2 {
        ButtonSelector::DownUpLeftRight
    } else {
        ButtonSelector::NoButtons
    }
}

/// P1 as read: the selected group's bit (4 or 5) is low, and so is each pressed button.
pub open spec fn p1_of(selector: ButtonSelector, buttons: JoypadInputRequest) -> u8 {
    match selector {
        ButtonSelector::NoButtons => 0x3F,
        ButtonSelector::DownUpLeftRight => (0xEF - (if buttons.down { 8int } else { 0 }) - (
        if buttons.up { 4int } else { 0 }) - (if buttons.left { 2int } else { 0 }) - (
        if buttons.right { 1int } else { 0 })) as u8,
        ButtonSelector::StartSelectBA => (0xDF - (if buttons.start { 8int } else { 0 }) - (
        if buttons.select { 4int } else { 0 }) - (if buttons.b { 2int } else { 0 }) - (
        if buttons.a { 1int } else { 0 })) as u8,
    }
}

/// Clears the bits of `mask` that `pressed` asks for.
fn clear_if(out: u8, pressed: bool, mask: u8) -> (r: u8)
    requires
        mask == 1 || mask == 2 || mask == 4 || mask == 8,
        out & mask == mask,
    ensures
        r == (if pressed { out - mask } else { out as int }),
{
    if pressed {
        proof {
            lemma_clear_set_bit(out, mask);
        }
        out & !mask
    } else {
        out
    }
}

/// What the joypad holds: the buttons held down, the group P1 selects, and a pending interrupt.
pub struct JoypadState {
    pub need_interrupt: bool,
    pub buttons: JoypadInputRequest,
    pub selector: ButtonSelector,
}

/// The joypad register P1.
pub struct Joypad {
    need_interrupt: bool,
    buttons: JoypadInputRequest,
    button_selector: ButtonSelector,
}

impl View for Joypad {
    type V = JoypadState;

    open spec fn view(&self) -> JoypadState {
        JoypadState {
            need_interrupt: self.interrupt_pending(),
            buttons: self.buttons(),
            selector: self.selector(),
        }
    }
}

impl Joypad {
    pub closed spec fn selector(&self) -> ButtonSelector {
        self.button_selector
    }

    pub closed spec fn buttons(&self) -> JoypadInputRequest {
        self.buttons
    }

    pub closed spec fn interrupt_pending(&self) -> bool {
        self.need_interrupt
    }

    pub fn new(buttons: JoypadInputRequest) -> (r: Joypad)
        ensures
            r.buttons() == buttons,
            r.selector() == ButtonSelector::NoButtons,
            !r.interrupt_pending(),
    {
        Joypad { need_interrupt: false, buttons, button_selector: ButtonSelector::NoButtons }
    }

    /// Records the buttons currently held down.
    pub fn set_buttons(&mut self, buttons: JoypadInputRequest)
        ensures
            final(self).buttons() == buttons,
            final(self).selector() == old(self).selector(),
            final(self).interrupt_pending() == old(self).interrupt_pending(),
    {
        self.buttons = buttons;
    }

    /// A write to P1 selects the button group from bits 4-5.
    pub fn set_p1_button_selector(&mut self, value: u8) -> (r: Result<(), Error>)
        ensures
            r is Ok,
            final(self).selector() == selector_of(value),
            final(self).buttons() == old(self).buttons(),
            final(self).interrupt_pending() == old(self).interrupt_pending(),
    {
        let button_selector = (value >> 4u8) & 0b11u8;
        proof {
            lemma_u8(value);
            lemma_u8(value >> 4u8);
        }
        if button_selector == 0b01 {
            self.button_selector = ButtonSelector::StartSelectBA;
        } else if button_selector == 0b10 {
            self.button_selector = ButtonSelector::DownUpLeftRight;
        } else {
            self.button_selector = ButtonSelector::NoButtons;
        }
        Ok(())
    }

    /// Reads P1: the selected group, active low.
    pub fn get_p1(&self) -> (r: u8)
        ensures
            r == p1_of(self.selector(), self.buttons()),
    {
        match self.button_selector {
            ButtonSelector::NoButtons => 0x3F,
            ButtonSelector::DownUpLeftRight => {
                let out: u8 = !0b0001_0000u8;
                proof {
                    lemma_p1_bits();
                }
                let buttons = self.buttons;
                let out = clear_if(out, buttons.down, 0b1000);
                let out = clear_if(out, buttons.up, 0b0100);
                let out = clear_if(out, buttons.left, 0b0010);
                let out = clear_if(out, buttons.right, 0b0001);
                out
            },
            ButtonSelector::StartSelectBA => {
                let out: u8 = !0b0010_0000u8;
                proof {
                    lemma_p1_bits();
                }
                let buttons = self.buttons;
                let out = clear_if(out, buttons.start, 0b1000);
                let out = clear_if(out, buttons.select, 0b0100);
                let out = clear_if(out, buttons.b, 0b0010);
                let out = clear_if(out, buttons.a, 0b0001);
                out
            },
        }
    }

    /// Gives back whether an interrupt was pending, and clears it.
    pub fn consume_interrupt(&mut self) -> (r: bool)
        ensures
            r == old(self).interrupt_pending(),
            !final(self).interrupt_pending(),
            final(self).selector() == old(self).selector(),
            final(self).buttons() == old(self).buttons(),
    {
        let need_interrupt = self.need_interrupt;
        self.need_interrupt = false;
        need_interrupt
    }
}

/// The P1 bits that each button clears are set until it clears them.
proof fn lemma_p1_bits()
    ensures
        !0x10u8 == 0xEFu8,
        !0x20u8 == 0xDFu8,
        0xEFu8 & 8u8 == 8u8,
        0xEFu8 & 4u8 == 4u8,
        0xE7u8 & 4u8 == 4u8,
        0xEFu8 & 2u8 == 2u8,
        0xE7u8 & 2u8 == 2u8,
        0xEBu8 & 2u8 == 2u8,
        0xE3u8 & 2u8 == 2u8,
        0xEFu8 & 1u8 == 1u8,
        0xE7u8 & 1u8 == 1u8,
        0xEBu8 & 1u8 == 1u8,
        0xEDu8 & 1u8 == 1u8,
        0xE3u8 & 1u8 == 1u8,
        0xE5u8 & 1u8 == 1u8,
        0xE9u8 & 1u8 == 1u8,
        0xE1u8 & 1u8 == 1u8,
        0xDFu8 & 8u8 == 8u8,
        0xDFu8 & 4u8 == 4u8,
        0xD7u8 & 4u8 == 4u8,
        0xDFu8 & 2u8 == 2u8,
        0xD7u8 & 2u8 == 2u8,
        0xDBu8 & 2u8 == 2u8,
        0xD3u8 & 2u8 == 2u8,
        0xDFu8 & 1u8 == 1u8,
        0xD7u8 & 1u8 == 1u8,
        0xDBu8 & 1u8 == 1u8,
        0xDDu8 & 1u8 == 1u8,
        0xD3u8 & 1u8 == 1u8,
        0xD5u8 & 1u8 == 1u8,
        0xD9u8 & 1u8 == 1u8,
        0xD1u8 & 1u8 == 1u8,
{
    assert((!0x10u8 == 0xEFu8) && (!0x20u8 == 0xDFu8) && (0xEFu8 & 8u8 == 8u8) && (0xEFu8 & 4u8 == 4u8) && (0xE7u8 & 4u8 == 4u8) && (0xEFu8 & 2u8 == 2u8) && (0xE7u8 & 2u8 == 2u8) && (0xEBu8 & 2u8 == 2u8) && (0xE3u8 & 2u8 == 2u8) && (0xEFu8 & 1u8 == 1u8) && (0xE7u8 & 1u8 == 1u8) && (0xEBu8 & 1u8 == 1u8) && (0xEDu8 & 1u8 == 1u8) && (0xE3u8 & 1u8 == 1u8) && (0xE5u8 & 1u8 == 1u8) && (0xE9u8 & 1u8 == 1u8) && (0xE1u8 & 1u8 == 1u8) && (0xDFu8 & 8u8 == 8u8) && (0xDFu8 & 4u8 == 4u8) && (0xD7u8 & 4u8 == 4u8) && (0xDFu8 & 2u8 == 2u8) && (0xD7u8 & 2u8 == 2u8) && (0xDBu8 & 2u8 == 2u8) && (0xD3u8 & 2u8 == 2u8) && (0xDFu8 & 1u8 == 1u8) && (0xD7u8 & 1u8 == 1u8) && (0xDBu8 & 1u8 == 1u8) && (0xDDu8 & 1u8 == 1u8) && (0xD3u8 & 1u8 == 1u8) && (0xD5u8 & 1u8 == 1u8) && (0xD9u8 & 1u8 == 1u8) && (0xD1u8 & 1u8 == 1u8)) by (bit_vector);
}

/// With a button group selected, P1 reads each button of the group as a low bit while it is
/// held and as a high bit otherwise (bit 0 to 3: Right, Left, Up, Down or A, B, Select, Start).
pub proof fn lemma_p1_reports_buttons(b: JoypadInputRequest)
    ensures
        p1_of(ButtonSelector::DownUpLeftRight, b) % 2 == (if b.right { 0int } else { 1 }),
        (p1_of(ButtonSelector::DownUpLeftRight, b) / 2) % 2 == (if b.left { 0int } else { 1 }),
        (p1_of(ButtonSelector::DownUpLeftRight, b) / 4) % 2 == (if b.up { 0int } else { 1 }),
        (p1_of(ButtonSelector::DownUpLeftRight, b) / 8) % 2 == (if b.down { 0int } else { 1 }),
        p1_of(ButtonSelector::StartSelectBA, b) % 2 == (if b.a { 0int } else { 1 }),
        (p1_of(ButtonSelector::StartSelectBA, b) / 2) % 2 == (if b.b { 0int } else { 1 }),
        (p1_of(ButtonSelector::StartSelectBA, b) / 4) % 2 == (if b.select { 0int } else { 1 }),
        (p1_of(ButtonSelector::StartSelectBA, b) / 8) % 2 == (if b.start { 0int } else { 1 }),
{
}

} // verus!
