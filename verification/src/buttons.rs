//! The digital inputs of the controller: the button categories, their codes in
//! the input report, and the decoding of a report into `ButtonsXboxOne`.

use crate::report::{
    COMMON_OFFSET, DPAD_OFFSET, LEFT_TRIGGER_OFFSET, LEFT_TRIGGER_PAIR_LEN, MISC_OFFSET,
    RIGHT_TRIGGER_OFFSET, RIGHT_TRIGGER_PAIR_LEN,
};
use vstd::prelude::*;

verus! {

/// First byte of the pair that a trigger reports when pulled to its stop.
pub const TRIGGER_MAX_LO: u8 = 255;

/// Second byte of the pair that a trigger reports when pulled to its stop.
pub const TRIGGER_MAX_HI: u8 = 3;

/// The buttons reported one at a time in the misc byte.
#[derive(Debug, Clone, Copy, PartialEq, Eq, Structural)]
pub enum ButtonMiscXboxOne {
    MainXboxButton,
    Start,
    View,
    RightStick,
    LeftStick,
}

impl ButtonMiscXboxOne {
    /// The value of the misc byte that reports this button.
    pub open spec fn code(self) -> u8 {
        match self {
            Self::MainXboxButton => 16,
            Self::Start => 8,
            Self::View => 4,
            Self::RightStick => 64,
            Self::LeftStick => 32,
        }
    }

    /// The button whose code is `raw`, if there is one.
    pub open spec fn from_code(raw: u8) -> Option<Self> {
        if raw == Self::MainXboxButton.code() {
            Some(Self::MainXboxButton)
        } else if raw == Self::Start.code() {
            Some(Self::Start)
        } else if raw == Self::View.code() {
            Some(Self::View)
        } else if raw == Self::RightStick.code() {
            Some(Self::RightStick)
        } else if raw == Self::LeftStick.code() {
            Some(Self::LeftStick)
        } else {
            None
        }
    }

    /// The button that a misc byte reports; `None` when the byte is no button's
    /// code.
    pub fn from_u8(raw_data: u8) -> (button: Option<Self>)
        ensures
            button == Self::from_code(raw_data),
    {
        match raw_data {
            16 => Some(Self::MainXboxButton),
            8 => Some(Self::Start),
            4 => Some(Self::View),
            64 => Some(Self::RightStick),
            32 => Some(Self::LeftStick),
            _ => None,
        }
    }
}

/// The directions of the D-pad.
#[derive(Debug, Clone, Copy, PartialEq, Eq, Structural)]
pub enum ButtonDpadXboxOne {
    Up,
    Down,
    Left,
    Right,
}

impl ButtonDpadXboxOne {
    /// The value of the D-pad byte that reports this direction.
    pub open spec fn code(self) -> u8 {
        match self {
            Self::Up => 1,
            Self::Down => 5,
            Self::Left => 7,
            Self::Right => 3,
        }
    }

    /// The direction whose code is `raw`, if there is one.
    pub open spec fn from_code(raw: u8) -> Option<Self> {
        if raw == Self::Up.code() {
            Some(Self::Up)
        } else if raw == Self::Down.code() {
            Some(Self::Down)
        } else if raw == Self::Left.code() {
            Some(Self::Left)
        } else if raw == Self::Right.code() {
            Some(Self::Right)
        } else {
            None
        }
    }

    /// The direction that a D-pad byte reports; `None` when the byte is no
    /// direction's code.
    pub fn from_u8(raw_data: u8) -> (direction: Option<Self>)
        ensures
            direction == Self::from_code(raw_data),
    {
        match raw_data {
            1 => Some(Self::Up),
            5 => Some(Self::Down),
            7 => Some(Self::Left),
            3 => Some(Self::Right),
            _ => None,
        }
    }
}

/// The face and shoulder buttons, each with a bit of its own in the common
/// byte.
#[derive(Debug, Clone, Copy, PartialEq, Eq, Structural)]
pub enum ButtonCommonXboxOne {
    A,
    B,
    X,
    Y,
    LB,
    RB,
}

impl ButtonCommonXboxOne {
    /// The bit of the common byte that reports this button.
    pub open spec fn code(self) -> u8 {
        match self {
            Self::A => 1,
            Self::B => 2,
            Self::X => 8,
            Self::Y => 16,
            Self::LB => 64,
            Self::RB => 128,
        }
    }

    /// The button whose bit is all of `raw`, if there is one.
    pub open spec fn from_code(raw: u8) -> Option<Self> {
        if raw == Self::A.code() {
            Some(Self::A)
        } else if raw == Self::B.code() {
            Some(Self::B)
        } else if raw == Self::X.code() {
            Some(Self::X)
        } else if raw == Self::Y.code() {
            Some(Self::Y)
        } else if raw == Self::LB.code() {
            Some(Self::LB)
        } else if raw == Self::RB.code() {
            Some(Self::RB)
        } else {
            None
        }
    }

    /// The button whose bit is the only content of `raw_data`; `None` when the
    /// byte is not exactly one button's bit.
    pub fn from_u8(raw_data: u8) -> (button: Option<Self>)
        ensures
            button == Self::from_code(raw_data),
    {
        match raw_data {
            1 => Some(Self::A),
            2 => Some(Self::B),
            8 => Some(Self::X),
            16 => Some(Self::Y),
            64 => Some(Self::LB),
            128 => Some(Self::RB),
            _ => None,
        }
    }

    /// The bit of the common byte that reports this button.
    pub fn mask(self) -> (bit: u8)
        ensures
            bit == self.code(),
    {
        match self {
            Self::A => 1,
            Self::B => 2,
            Self::X => 8,
            Self::Y => 16,
            Self::LB => 64,
            Self::RB => 128,
        }
    }
}

/// The face and shoulder buttons that are held down together.
#[derive(Debug, Clone, Copy, PartialEq, Eq, Structural)]
pub struct CommonButtonsXboxOne {
    pub a: bool,
    pub b: bool,
    pub x: bool,
    pub y: bool,
    pub lb: bool,
    pub rb: bool,
}

impl CommonButtonsXboxOne {
    /// `button` is held down.
    pub open spec fn holds(self, button: ButtonCommonXboxOne) -> bool {
        match button {
            ButtonCommonXboxOne::A => self.a,
            ButtonCommonXboxOne::B => self.b,
            ButtonCommonXboxOne::X => self.x,
            ButtonCommonXboxOne::Y => self.y,
            ButtonCommonXboxOne::LB => self.lb,
            ButtonCommonXboxOne::RB => self.rb,
        }
    }

    /// Nothing held down.
    pub open spec fn none() -> Self {
        CommonButtonsXboxOne { a: false, b: false, x: false, y: false, lb: false, rb: false }
    }

    /// The buttons whose bits are set in `mask`. Bits that belong to no button
    /// count for nothing.
    pub open spec fn of_mask(mask: u8) -> Self {
        CommonButtonsXboxOne {
            a: mask & ButtonCommonXboxOne::A.code() != 0,
            b: mask & ButtonCommonXboxOne::B.code() != 0,
            x: mask & ButtonCommonXboxOne::X.code() != 0,
            y: mask & ButtonCommonXboxOne::Y.code() != 0,
            lb: mask & ButtonCommonXboxOne::LB.code() != 0,
            rb: mask & ButtonCommonXboxOne::RB.code() != 0,
        }
    }

    /// Nothing held down.
    pub fn released() -> (buttons: Self)
        ensures
            buttons == Self::none(),
    {
        CommonButtonsXboxOne { a: false, b: false, x: false, y: false, lb: false, rb: false }
    }

    /// Every button whose bit is set in the common byte, and no other.
    pub fn from_mask(raw_data: u8) -> (buttons: Self)
        ensures
            buttons == Self::of_mask(raw_data),
    {
        CommonButtonsXboxOne {
            a: raw_data & ButtonCommonXboxOne::A.mask() != 0,
            b: raw_data & ButtonCommonXboxOne::B.mask() != 0,
            x: raw_data & ButtonCommonXboxOne::X.mask() != 0,
            y: raw_data & ButtonCommonXboxOne::Y.mask() != 0,
            lb: raw_data & ButtonCommonXboxOne::LB.mask() != 0,
            rb: raw_data & ButtonCommonXboxOne::RB.mask() != 0,
        }
    }

    /// Tells whether `button` is held down.
    pub fn is_pressed(&self, button: ButtonCommonXboxOne) -> (pressed: bool)
        ensures
            pressed == self.holds(button),
    {
        match button {
            ButtonCommonXboxOne::A => self.a,
            ButtonCommonXboxOne::B => self.b,
            ButtonCommonXboxOne::X => self.x,
            ButtonCommonXboxOne::Y => self.y,
            ButtonCommonXboxOne::LB => self.lb,
            ButtonCommonXboxOne::RB => self.rb,
        }
    }
}

/// A trigger pulled to its stop.
#[derive(Debug, Clone, Copy, PartialEq, Eq, Structural)]
pub enum ButtonTriggerXboxOne {
    LT,
    RT,
}

/// `raw` carries the left trigger's byte pair, and the pair says that the
/// trigger is pulled to its stop.
pub open spec fn left_trigger_at_max(raw: Seq<u8>) -> bool {
    &&& raw.len() >= LEFT_TRIGGER_PAIR_LEN
    &&& raw[LEFT_TRIGGER_OFFSET as int] == TRIGGER_MAX_LO
    &&& raw[LEFT_TRIGGER_OFFSET + 1] == TRIGGER_MAX_HI
}

/// `raw` carries the right trigger's byte pair, and the pair says that the
/// trigger is pulled to its stop.
pub open spec fn right_trigger_at_max(raw: Seq<u8>) -> bool {
    &&& raw.len() >= RIGHT_TRIGGER_PAIR_LEN
    &&& raw[RIGHT_TRIGGER_OFFSET as int] == TRIGGER_MAX_LO
    &&& raw[RIGHT_TRIGGER_OFFSET + 1] == TRIGGER_MAX_HI
}

impl ButtonTriggerXboxOne {
    /// The trigger that is pulled to its stop according to `raw`; the left one
    /// when both are. A pair that the report is too short to carry counts as
    /// not at its stop.
    pub open spec fn decode(raw: Seq<u8>) -> Option<Self> {
        if left_trigger_at_max(raw) {
            Some(Self::LT)
        } else if right_trigger_at_max(raw) {
            Some(Self::RT)
        } else {
            None
        }
    }

    /// Reads the trigger that is pulled to its stop from a report.
    pub fn from_u8(raw_data: &[u8]) -> (trigger: Option<Self>)
        ensures
            trigger == Self::decode(raw_data@),
    {
        if raw_data.len() < LEFT_TRIGGER_PAIR_LEN {
            None
        } else if raw_data[LEFT_TRIGGER_OFFSET] == TRIGGER_MAX_LO && raw_data[LEFT_TRIGGER_OFFSET
            + 1] == TRIGGER_MAX_HI {
            Some(Self::LT)
        } else if raw_data.len() < RIGHT_TRIGGER_PAIR_LEN {
            None
        } else if raw_data[RIGHT_TRIGGER_OFFSET] == TRIGGER_MAX_LO && raw_data[RIGHT_TRIGGER_OFFSET
            + 1] == TRIGGER_MAX_HI {
            Some(Self::RT)
        } else {
            None
        }
    }
}

/// What the controller's buttons read: one reading per category. The
/// categories do not depend on each other.
#[derive(Debug, Clone, Copy, PartialEq, Eq, Structural)]
pub struct ButtonsXboxOne {
    pub common: CommonButtonsXboxOne,
    pub trigger: Option<ButtonTriggerXboxOne>,
    pub misc: Option<ButtonMiscXboxOne>,
    pub dpad: Option<ButtonDpadXboxOne>,
}

impl ButtonsXboxOne {
    /// Nothing pressed in any category.
    pub open spec fn none() -> Self {
        ButtonsXboxOne {
            common: CommonButtonsXboxOne::none(),
            trigger: None,
            misc: None,
            dpad: None,
        }
    }

    /// `self` with every category that `raw` carries replaced by what `raw`
    /// says of it.
    pub open spec fn merged(self, raw: Seq<u8>) -> Self {
        ButtonsXboxOne {
            common: if raw.len() > COMMON_OFFSET {
                CommonButtonsXboxOne::of_mask(raw[COMMON_OFFSET as int])
            } else {
                self.common
            },
            trigger: if raw.len() >= LEFT_TRIGGER_PAIR_LEN {
                ButtonTriggerXboxOne::decode(raw)
            } else {
                self.trigger
            },
            misc: if raw.len() > MISC_OFFSET {
                ButtonMiscXboxOne::from_code(raw[MISC_OFFSET as int])
            } else {
                self.misc
            },
            dpad: if raw.len() > DPAD_OFFSET {
                ButtonDpadXboxOne::from_code(raw[DPAD_OFFSET as int])
            } else {
                self.dpad
            },
        }
    }

    /// Nothing pressed in any category.
    pub fn released() -> (buttons: Self)
        ensures
            buttons == Self::none(),
    {
        ButtonsXboxOne {
            common: CommonButtonsXboxOne::released(),
            trigger: None,
            misc: None,
            dpad: None,
        }
    }

    /// Reads every button category that the report carries, and leaves the
    /// others as they are.
    pub fn update(&mut self, raw_data: &[u8])
        ensures
            *final(self) == old(self).merged(raw_data@),
    {
        if raw_data.len() > DPAD_OFFSET {
            self.dpad = ButtonDpadXboxOne::from_u8(raw_data[DPAD_OFFSET]);
        }
        if raw_data.len() > COMMON_OFFSET {
            self.common = CommonButtonsXboxOne::from_mask(raw_data[COMMON_OFFSET]);
        }
        if raw_data.len() > MISC_OFFSET {
            self.misc = ButtonMiscXboxOne::from_u8(raw_data[MISC_OFFSET]);
        }
        if raw_data.len() >= LEFT_TRIGGER_PAIR_LEN {
            self.trigger = ButtonTriggerXboxOne::from_u8(raw_data);
        }
    }

    /// Decodes the buttons of a report. A category that the report is too short
    /// to carry reads as not pressed.
    pub fn parse_bytes(raw_data: &[u8]) -> (buttons: Self)
        ensures
            buttons == Self::none().merged(raw_data@),
    {
        let mut buttons = Self::released();
        buttons.update(raw_data);
        buttons
    }
}

impl Default for CommonButtonsXboxOne {
    fn default() -> (buttons: Self)
        ensures
            buttons == Self::none(),
    {
        Self::released()
    }
}

impl Default for ButtonsXboxOne {
    fn default() -> (buttons: Self)
        ensures
            buttons == Self::none(),
    {
        Self::released()
    }
}

/// A byte is a misc button's code exactly when it decodes to that button.
pub proof fn lemma_misc_code_round_trip(raw: u8, button: ButtonMiscXboxOne)
    ensures
        ButtonMiscXboxOne::from_code(raw) == Some(button) <==> raw == button.code(),
{
}

/// A byte is a D-pad direction's code exactly when it decodes to that
/// direction, so a byte reports at most one direction.
pub proof fn lemma_dpad_code_round_trip(raw: u8, direction: ButtonDpadXboxOne)
    ensures
        ButtonDpadXboxOne::from_code(raw) == Some(direction) <==> raw == direction.code(),
{
}

/// A byte is a common button's bit exactly when it decodes to that button.
pub proof fn lemma_common_code_round_trip(raw: u8, button: ButtonCommonXboxOne)
    ensures
        ButtonCommonXboxOne::from_code(raw) == Some(button) <==> raw == button.code(),
{
}

/// The common byte reports a button exactly when the button's bit is set in
/// it: every combination of buttons is reported whole.
pub proof fn lemma_common_mask_reports_each_bit(mask: u8, button: ButtonCommonXboxOne)
    ensures
        CommonButtonsXboxOne::of_mask(mask).holds(button) == (mask & button.code() != 0),
{
}

/// The left trigger reads as pulled to its stop exactly when the report
/// carries the trigger's byte pair and the pair is the maximum, 255 and 3.
pub proof fn lemma_left_trigger_edge(raw: Seq<u8>)
    ensures
        ButtonTriggerXboxOne::decode(raw) == Some(ButtonTriggerXboxOne::LT) <==> raw.len() >= 10
            && raw[8] == 255 && raw[9] == 3,
{
}

/// The right trigger reads as pulled to its stop exactly when the report
/// carries both trigger byte pairs, the right one is the maximum and the left
/// one is not.
pub proof fn lemma_right_trigger_edge(raw: Seq<u8>)
    ensures
        ButtonTriggerXboxOne::decode(raw) == Some(ButtonTriggerXboxOne::RT) <==> raw.len() >= 12
            && raw[10] == 255 && raw[11] == 3 && !(raw[8] == 255 && raw[9] == 3),
{
}

} // verus!
