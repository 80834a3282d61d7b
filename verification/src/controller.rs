//! The standard NES joypad: eight buttons latched by a strobe and read back
//! one bit at a time through $4016 / $4017.
use vstd::prelude::*;
use crate::bits::{lemma_bit_set_clear, lemma_u8_fields};

verus! {

/// The eight joypad buttons, in the order in which they are shifted out.
#[derive(Debug, Clone, Copy, PartialEq, Eq, Structural)]
pub enum Button {
    A,
    B,
    Select,
    Start,
    Up,
    Down,
    Left,
    Right,
}

/// Bit position of a button in the controller's button-state byte.
pub open spec fn button_bit(button: Button) -> u8 {
    match button {
        Button::A => 0,
        Button::B => 1,
        Button::Select => 2,
        Button::Start => 3,
        Button::Up => 4,
        Button::Down => 5,
        Button::Left => 6,
        Button::Right => 7,
    }
}

/// An input event from the front end.
#[derive(Debug, Clone)]
pub struct InputData {
    pub button: Button,
    /// true for pressed, false for released.
    pub pressed: bool,
}

/// The controller's state: the strobe signal, the index of the next button
/// to be read, and the pressed state of all eight buttons as a bit field.
#[derive(Clone, Copy)]
pub struct Controller {
    strobe: bool,
    button_index: u8,
    button_states: u8,
}

/// The abstract state of a controller: (strobe, next button index, button bits).
pub struct ControllerState {
    pub strobe: bool,
    pub button_index: u8,
    pub button_states: u8,
}

impl View for Controller {
    type V = ControllerState;

    closed spec fn view(&self) -> ControllerState {
        ControllerState {
            strobe: self.strobe,
            button_index: self.button_index,
            button_states: self.button_states,
        }
    }
}

/// The byte a read of the controller port returns in state `s`.
pub open spec fn read_result(s: ControllerState) -> u8 {
    if s.button_index > 7 {
        1
    } else {
        (s.button_states >> s.button_index) & 1
    }
}

/// The state after a read of the controller port in state `s`: the button
/// index advances while the strobe is low, until all eight have been read.
pub open spec fn after_read(s: ControllerState) -> ControllerState {
    if s.button_index > 7 || s.strobe {
        s
    } else {
        ControllerState { button_index: (s.button_index + 1) as u8, ..s }
    }
}

/// The state after writing `data` to the controller port in state `s`.
pub open spec fn after_write(s: ControllerState, data: u8) -> ControllerState {
    let strobe = (data & 1) == 1;
    ControllerState {
        strobe,
        button_index: if strobe {
            0
        } else {
            s.button_index
        },
        button_states: s.button_states,
    }
}

/// The button bits with `button` pressed or released.
pub open spec fn with_button(states: u8, button: Button, pressed: bool) -> u8 {
    if pressed {
        states | (1u8 << button_bit(button))
    } else {
        states & !(1u8 << button_bit(button))
    }
}

impl Controller {
    pub fn new() -> (r: Self)
        ensures
            !r@.strobe,
            r@.button_index == 0,
            r@.button_states == 0,
    {
        Controller { strobe: false, button_index: 0, button_states: 0 }
    }

    /// Write to the controller register ($4016 or $4017).
    pub fn write(&mut self, data: u8)
        ensures
            final(self)@ == after_write(old(self)@, data),
    {
        self.strobe = (data & 1) == 1;
        if self.strobe {
            self.button_index = 0;
        }
    }

    /// Read from the controller register ($4016 or $4017).
    pub fn read(&mut self) -> (r: u8)
        ensures
            r == read_result(old(self)@),
            final(self)@ == after_read(old(self)@),
    {
        if self.button_index > 7 {
            return 1;
        }
        let response = (self.button_states >> self.button_index) & 1;
        if !self.strobe {
            self.button_index = self.button_index + 1;
        }
        response
    }

    /// Sets the state of one button.
    pub fn set_button_state(&mut self, button: Button, pressed: bool)
        ensures
            final(self)@ == (ControllerState {
                button_states: with_button(old(self)@.button_states, button, pressed),
                ..old(self)@
            }),
    {
        let bit: u8 = match button {
            Button::A => 0,
            Button::B => 1,
            Button::Select => 2,
            Button::Start => 3,
            Button::Up => 4,
            Button::Down => 5,
            Button::Left => 6,
            Button::Right => 7,
        };
        if pressed {
            self.button_states = self.button_states | (1u8 << bit);
        } else {
            self.button_states = self.button_states & !(1u8 << bit);
        }
    }
}

impl Default for Controller {
    fn default() -> (r: Self)
        ensures
            !r@.strobe,
            r@.button_index == 0,
            r@.button_states == 0,
    {
        Controller::new()
    }
}

/// After a button is pressed its bit reads 1, after it is released its bit
/// reads 0, and the bits of the other buttons are unchanged.
pub proof fn lemma_button_state(states: u8, button: Button, pressed: bool, other: Button)
    ensures
        (with_button(states, button, pressed) >> button_bit(button)) & 1 == (if pressed {
            1u8
        } else {
            0u8
        }),
        other != button ==> (with_button(states, button, pressed) >> button_bit(other)) & 1 == (
        states >> button_bit(other)) & 1,
{
    let b = button_bit(button);
    let o = button_bit(other);
    assert(b < 8 && o < 8);
    assert(other != button ==> b != o);
    lemma_bit_set_clear(states, b, o);
}

/// The state after `n` reads starting from state `s`.
pub open spec fn after_reads(s: ControllerState, n: nat) -> ControllerState
    decreases n,
{
    if n == 0 {
        s
    } else {
        after_read(after_reads(s, (n - 1) as nat))
    }
}

/// Serial read-out: once the strobe has been raised and lowered again, the
/// k-th read (k = 0..7) returns the state of button k (A, B, Select, Start,
/// Up, Down, Left, Right), and every read after the eighth returns 1.
pub proof fn lemma_serial_readout(states: u8, k: nat)
    ensures
        ({
            let s0 = after_write(
                after_write(ControllerState { strobe: false, button_index: 0, button_states: states }, 1),
                0,
            );
            &&& after_reads(s0, k).button_states == states
            &&& !after_reads(s0, k).strobe
            &&& after_reads(s0, k).button_index == (if k <= 8 {
                k
            } else {
                8
            })
            &&& read_result(after_reads(s0, k)) == (if k < 8 {
                (states >> (k as u8)) & 1
            } else {
                1
            })
        }),
    decreases k,
{
    let s0 = after_write(
        after_write(ControllerState { strobe: false, button_index: 0, button_states: states }, 1),
        0,
    );
    lemma_u8_fields(1);
    lemma_u8_fields(0);
    assert(s0.button_index == 0 && !s0.strobe && s0.button_states == states);
    if k > 0 {
        lemma_serial_readout(states, (k - 1) as nat);
        let prev = after_reads(s0, (k - 1) as nat);
        assert(after_reads(s0, k) == after_read(prev));
    }
    let s = after_reads(s0, k);
    if k < 8 {
        assert(s.button_index == k);
        assert(s.button_index == (k as u8));
    }
}

} // verus!
