//! The decoded state of an Xbox One controller and its update from HID input
//! reports.

use crate::buttons::{ButtonMiscXboxOne, ButtonsXboxOne};
use crate::gamepads::GamepadPacketHandler;
use crate::report::{
    decode_sticks, decode_triggers, left_stick, right_stick, trigger_pair, MISC_OFFSET, REPORT_LEN,
    STICKS_LEN, TRIGGERS_LEN,
};
use vstd::prelude::*;

verus! {

/// The latest decoded state of the controller.
#[derive(Debug, Clone, Copy, PartialEq, Eq)]
pub struct GamepadXboxOne {
    /// Whether the consumer should log raw reports.
    pub debug: bool,
    /// Buttons
    pub buttons: ButtonsXboxOne,
    /// Sticks (left, right) (x, y)
    pub sticks: [(u16, u16); 2],
    /// BRAKE, THROTTLE
    pub trigger: (u8, u8),
    /// Battery level, once one was read.
    pub battery: Option<u8>,
}

/// What a `GamepadXboxOne` holds, as plain values.
pub struct Snapshot {
    pub debug: bool,
    pub buttons: ButtonsXboxOne,
    pub left_stick: (u16, u16),
    pub right_stick: (u16, u16),
    pub trigger: (u8, u8),
    pub battery: Option<u8>,
}

impl Snapshot {
    /// The state before anything was decoded.
    pub open spec fn initial() -> Snapshot {
        Snapshot {
            debug: false,
            buttons: ButtonsXboxOne::none(),
            left_stick: (0, 0),
            right_stick: (0, 0),
            trigger: (0, 0),
            battery: None,
        }
    }

    /// The state after the sticks were read from `raw`: unchanged when `raw`
    /// is too short to carry them.
    pub open spec fn with_sticks(self, raw: Seq<u8>) -> Snapshot {
        if raw.len() >= STICKS_LEN {
            Snapshot { left_stick: left_stick(raw), right_stick: right_stick(raw), ..self }
        } else {
            self
        }
    }

    /// The state after the buttons were read from `raw`, category by category.
    pub open spec fn with_buttons(self, raw: Seq<u8>) -> Snapshot {
        Snapshot { buttons: self.buttons.merged(raw), ..self }
    }

    /// The state after the trigger magnitudes were read from `raw`: unchanged
    /// when `raw` is too short to carry them.
    pub open spec fn with_trigger(self, raw: Seq<u8>) -> Snapshot {
        if raw.len() >= TRIGGERS_LEN {
            Snapshot { trigger: trigger_pair(raw), ..self }
        } else {
            self
        }
    }

    /// The state after a battery level was read from `raw`, a value of one
    /// byte: unchanged when `raw` is empty.
    pub open spec fn with_battery(self, raw: Seq<u8>) -> Snapshot {
        if raw.len() >= 1 {
            Snapshot { battery: Some(raw[0]), ..self }
        } else {
            self
        }
    }

    /// The state with the debug flag flipped.
    pub open spec fn toggled(self) -> Snapshot {
        Snapshot { debug: !self.debug, ..self }
    }

    /// The report `raw` carries the misc byte, and the byte is the guide
    /// button's code.
    pub open spec fn guide_observed(raw: Seq<u8>) -> bool {
        raw.len() > MISC_OFFSET && raw[MISC_OFFSET as int]
            == ButtonMiscXboxOne::MainXboxButton.code()
    }

    /// The state after decoding the input report `raw`.
    pub open spec fn decoded(self, raw: Seq<u8>) -> Snapshot {
        self.with_sticks(raw).with_buttons(raw).with_trigger(raw)
    }

    /// The state after the notification `raw`: the report is decoded, and the
    /// debug flag flips if the report shows the guide button pressed.
    pub open spec fn notified(self, raw: Seq<u8>) -> Snapshot {
        if Self::guide_observed(raw) {
            self.decoded(raw).toggled()
        } else {
            self.decoded(raw)
        }
    }
}

impl View for GamepadXboxOne {
    type V = Snapshot;

    open spec fn view(&self) -> Snapshot {
        Snapshot {
            debug: self.debug,
            buttons: self.buttons,
            left_stick: self.sticks[0],
            right_stick: self.sticks[1],
            trigger: self.trigger,
            battery: self.battery,
        }
    }
}

impl GamepadXboxOne {
    /// A controller state with nothing decoded yet.
    pub fn new() -> (pad: Self)
        ensures
            pad@ == Snapshot::initial(),
    {
        GamepadXboxOne {
            debug: false,
            buttons: ButtonsXboxOne::released(),
            sticks: [(0, 0), (0, 0)],
            trigger: (0, 0),
            battery: None,
        }
    }

    /// Flips the debug flag.
    pub fn toggle_debug(&mut self)
        ensures
            final(self)@ == old(self)@.toggled(),
    {
        self.debug = !self.debug;
    }

    /// Handles one notification of the report characteristic: decodes the
    /// report into the state, field group by field group, and flips the debug
    /// flag if the report shows the guide button pressed. Returns whether the
    /// report carried every field group; the caller may log a diagnostic when
    /// it did not.
    pub fn on_notify(&mut self, raw_data: &[u8]) -> (complete: bool)
        ensures
            final(self)@ == old(self)@.notified(raw_data@),
            complete == (raw_data@.len() >= REPORT_LEN),
    {
        self.set_sticks(raw_data);
        self.set_buttons(raw_data);
        self.set_trigger(raw_data);
        if raw_data.len() > MISC_OFFSET {
            match self.buttons.misc {
                Some(ButtonMiscXboxOne::MainXboxButton) => {
                    self.toggle_debug();
                },
                _ => {},
            }
        }
        raw_data.len() >= REPORT_LEN
    }
}

impl GamepadPacketHandler for GamepadXboxOne {
    /// Reads the buttons from an input report; a category that the report is
    /// too short to carry keeps its reading.
    fn set_buttons(&mut self, raw_data: &[u8])
        ensures
            final(self)@ == old(self)@.with_buttons(raw_data@),
    {
        self.buttons.update(raw_data);
    }

    /// Reads the stick positions from an input report; a report too short to
    /// carry them changes nothing.
    fn set_sticks(&mut self, raw_data: &[u8])
        ensures
            final(self)@ == old(self)@.with_sticks(raw_data@),
    {
        match decode_sticks(raw_data) {
            Some(sticks) => {
                self.sticks = sticks;
            },
            None => {},
        }
    }

    /// Reads the trigger magnitudes from an input report; a report too short
    /// to carry them changes nothing.
    fn set_trigger(&mut self, raw_data: &[u8])
        ensures
            final(self)@ == old(self)@.with_trigger(raw_data@),
    {
        match decode_triggers(raw_data) {
            Some(trigger) => {
                self.trigger = trigger;
            },
            None => {},
        }
    }

    /// Stores a battery level read from the device, a value of one byte; an
    /// empty value changes nothing.
    fn set_battery(&mut self, raw_data: &[u8])
        ensures
            final(self)@ == old(self)@.with_battery(raw_data@),
    {
        if raw_data.len() >= 1 {
            self.battery = Some(raw_data[0]);
        }
    }
}

impl Default for GamepadXboxOne {
    fn default() -> (pad: Self)
        ensures
            pad@ == Snapshot::initial(),
    {
        Self::new()
    }
}

/// A report too short to carry the sticks leaves both stick positions as they
/// were, whatever else it changes.
pub proof fn lemma_short_report_keeps_sticks(before: Snapshot, raw: Seq<u8>)
    requires
        raw.len() < STICKS_LEN,
    ensures
        before.notified(raw).left_stick == before.left_stick,
        before.notified(raw).right_stick == before.right_stick,
        before.notified(raw) == before,
{
}

/// A report that carries every field group decides the sticks, the triggers
/// and the buttons by itself: what was decoded before does not show.
pub proof fn lemma_complete_report_decides(first: Snapshot, second: Snapshot, raw: Seq<u8>)
    requires
        raw.len() >= REPORT_LEN,
    ensures
        first.decoded(raw).left_stick == second.decoded(raw).left_stick,
        first.decoded(raw).right_stick == second.decoded(raw).right_stick,
        first.decoded(raw).trigger == second.decoded(raw).trigger,
        first.decoded(raw).buttons == second.decoded(raw).buttons,
{
}

} // verus!
