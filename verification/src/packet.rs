//! A controller packet filled by reading the report characteristic on demand,
//! for consumers that poll the device instead of subscribing to it.

use crate::report::{decode_sticks, left_stick, right_stick, STICKS_LEN};
use vstd::prelude::*;

verus! {

/// Every button of the controller, by name.
#[derive(Debug, Clone, Copy, PartialEq, Eq, Structural)]
pub enum ButtonsXboxOne {
    A,
    B,
    X,
    Y,
    DPadUp,
    DPadDown,
    DPadLeft,
    DPadRight,
    Start,
    Back,
    LeftStick,
    RightStick,
    RT,
    RB,
    LT,
    LB,
}

/// What was last read from the controller.
#[derive(Debug, PartialEq, Eq)]
pub struct GamepadPacketXboxOne {
    /// Buttons
    pub buttons: Vec<ButtonsXboxOne>,
    /// Sticks (left, right) (x, y)
    pub sticks: [(u16, u16); 2],
    /// BRAKE, THROTTLE
    pub trigger: (u16, u16),
    pub battery: u8,
}

impl GamepadPacketXboxOne {
    /// Nothing was read yet: no button, everything at zero.
    pub open spec fn is_empty(self) -> bool {
        &&& self.buttons@.len() == 0
        &&& self.sticks[0] == (0u16, 0u16)
        &&& self.sticks[1] == (0u16, 0u16)
        &&& self.trigger == (0u16, 0u16)
        &&& self.battery == 0
    }

    /// The stick positions that `raw_data` reports, left stick first; those of
    /// the packet when `raw_data` is too short to carry them. The packet stays
    /// as it is.
    pub fn sticks(&mut self, raw_data: &[u8]) -> (sticks: [(u16, u16); 2])
        ensures
            *final(self) == *old(self),
            sticks[0] == if raw_data@.len() >= STICKS_LEN {
                left_stick(raw_data@)
            } else {
                old(self).sticks[0]
            },
            sticks[1] == if raw_data@.len() >= STICKS_LEN {
                right_stick(raw_data@)
            } else {
                old(self).sticks[1]
            },
    {
        match decode_sticks(raw_data) {
            Some(sticks) => sticks,
            None => self.sticks,
        }
    }

    /// Takes in the value read from the report characteristic: the packet's
    /// sticks become those of `raw_data`, or stay when it is too short, and
    /// nothing else changes. Returns an empty packet for the next read.
    pub fn parse_packet(&mut self, raw_data: &[u8]) -> (next: Self)
        ensures
            next.is_empty(),
            final(self).buttons == old(self).buttons,
            final(self).trigger == old(self).trigger,
            final(self).battery == old(self).battery,
            final(self).sticks[0] == if raw_data@.len() >= STICKS_LEN {
                left_stick(raw_data@)
            } else {
                old(self).sticks[0]
            },
            final(self).sticks[1] == if raw_data@.len() >= STICKS_LEN {
                right_stick(raw_data@)
            } else {
                old(self).sticks[1]
            },
    {
        self.sticks = self.sticks(raw_data);
        Self::default()
    }
}

impl Default for GamepadPacketXboxOne {
    fn default() -> (packet: Self)
        ensures
            packet.is_empty(),
    {
        GamepadPacketXboxOne {
            buttons: Vec::new(),
            sticks: [(0, 0), (0, 0)],
            trigger: (0, 0),
            battery: 0,
        }
    }
}

} // verus!
