//! The standard input controller at $4016.

use vstd::prelude::*;

verus! {

pub const CONTROLLER_BUTTON_A: usize = 0;

pub const CONTROLLER_BUTTON_B: usize = 1;

pub const CONTROLLER_BUTTON_SELECT: usize = 2;

pub const CONTROLLER_BUTTON_START: usize = 3;

pub const CONTROLLER_BUTTON_UP: usize = 4;

pub const CONTROLLER_BUTTON_DOWN: usize = 5;

pub const CONTROLLER_BUTTON_LEFT: usize = 6;

pub const CONTROLLER_BUTTON_RIGHT: usize = 7;

/// The controller port. With the strobe high, reads always report the live
/// state of button A. A write with bit 0 low latches the eight current
/// button states; each following read then reports one latched button in
/// the order A, B, Select, Start, Up, Down, Left, Right, and after the
/// eighth, reads return 1.
pub struct Controller {
    pub strobe: bool,
    pub selected_button: usize,
    /// The host pushes the eight current button states here.
    pub button_states: [bool; 8],
    /// The snapshot taken by the last strobe-low write; serial reads
    /// consume this, not the live states.
    pub latched_states: [bool; 8],
}

/// What one controller read does: relates the controller before (`c0`) and
/// after (`c1`) and the bit returned.
pub open spec fn controller_read_post(c0: Controller, c1: Controller, r: u8) -> bool {
    if c0.strobe {
        &&& r == (if c0.button_states@[0] {
            1u8
        } else {
            0u8
        })
        &&& c1 == c0
    } else if c0.selected_button >= 8 {
        &&& r == 1u8
        &&& c1 == c0
    } else {
        &&& r == (if c0.latched_states@[c0.selected_button as int] {
            1u8
        } else {
            0u8
        })
        &&& c1 == (Controller { selected_button: (c0.selected_button + 1) as usize, ..c0 })
    }
}

impl Controller {
    /// The read cursor never runs past the eighth button.
    pub open spec fn wf(&self) -> bool {
        self.selected_button <= 8
    }

    pub fn new() -> (r: Controller)
        ensures
            r.wf(),
            r.strobe == false,
            r.selected_button == 0,
            forall|i: int| 0 <= i < 8 ==> r.button_states@[i] == false,
            forall|i: int| 0 <= i < 8 ==> r.latched_states@[i] == false,
    {
        Controller {
            strobe: false,
            selected_button: 0,
            button_states: [false; 8],
            latched_states: [false; 8],
        }
    }

    /// A write to $4016: bit 0 high enables strobe mode and resets the read
    /// cursor; bit 0 low latches the current button states for serial
    /// reads.
    pub fn write(&mut self, value: u8)
        ensures
            *final(self) == (Controller {
                strobe: value & 1 == 1,
                selected_button: if value & 1 == 1 {
                    0
                } else {
                    old(self).selected_button
                },
                latched_states: if value & 1 == 1 {
                    old(self).latched_states
                } else {
                    old(self).button_states
                },
                ..*old(self)
            }),
            old(self).wf() ==> final(self).wf(),
    {
        self.strobe = (value & 1) == 1;
        if self.strobe {
            self.selected_button = 0;
        } else {
            self.latched_states = self.button_states;
        }
    }

    /// A read from $4016.
    pub fn read(&mut self) -> (r: u8)
        requires
            old(self).wf(),
        ensures
            final(self).wf(),
            controller_read_post(*old(self), *final(self), r),
    {
        if self.strobe {
            return if self.button_states[CONTROLLER_BUTTON_A] {
                1
            } else {
                0
            };
        }
        if self.selected_button >= 8 {
            return 1;
        }
        let value = if self.latched_states[self.selected_button] {
            1
        } else {
            0
        };
        self.selected_button = self.selected_button + 1;
        value
    }
}

} // verus!
