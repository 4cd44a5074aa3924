//! The byte layout of the controller's HID input report, and the extraction of
//! the analog fields from it.
//!
//! The report starts with the right stick's horizontal and vertical axes and
//! the left stick's, two bytes each, low byte first. A report may arrive
//! truncated. Each field group has a minimum length; a report shorter than
//! that simply does not carry the group.

use vstd::prelude::*;

verus! {

/// Offset of the left trigger's magnitude.
pub const LEFT_TRIGGER_OFFSET: usize = 8;

/// Offset of the right trigger's magnitude.
pub const RIGHT_TRIGGER_OFFSET: usize = 10;

/// Offset of the D-pad code.
pub const DPAD_OFFSET: usize = 12;

/// Offset of the common-button bitmask.
pub const COMMON_OFFSET: usize = 13;

/// Offset of the misc-button code.
pub const MISC_OFFSET: usize = 14;

/// Shortest report that carries both sticks.
pub const STICKS_LEN: usize = 8;

/// Shortest report that carries both trigger magnitudes.
pub const TRIGGERS_LEN: usize = 11;

/// Shortest report that carries the left trigger's byte pair.
pub const LEFT_TRIGGER_PAIR_LEN: usize = 10;

/// Shortest report that carries the right trigger's byte pair as well.
pub const RIGHT_TRIGGER_PAIR_LEN: usize = 12;

/// Shortest report that carries every field group.
pub const REPORT_LEN: usize = 15;

/// The value of a little-endian byte pair.
pub open spec fn le_u16(lo: u8, hi: u8) -> u16 {
    (lo as int + 256 * (hi as int)) as u16
}

/// Right stick position `(x, y)` in a report of at least `STICKS_LEN` bytes.
pub open spec fn right_stick(raw: Seq<u8>) -> (u16, u16) {
    (le_u16(raw[0], raw[1]), le_u16(raw[2], raw[3]))
}

/// Left stick position `(x, y)` in a report of at least `STICKS_LEN` bytes.
pub open spec fn left_stick(raw: Seq<u8>) -> (u16, u16) {
    (le_u16(raw[4], raw[5]), le_u16(raw[6], raw[7]))
}

/// Trigger magnitudes `(left, right)` in a report of at least `TRIGGERS_LEN`
/// bytes.
pub open spec fn trigger_pair(raw: Seq<u8>) -> (u8, u8) {
    (raw[LEFT_TRIGGER_OFFSET as int], raw[RIGHT_TRIGGER_OFFSET as int])
}

/// The little-endian byte pair of a 16-bit value, low byte first.
pub open spec fn le_bytes(value: u16) -> (u8, u8) {
    ((value % 256) as u8, (value / 256) as u8)
}

/// Reassembles an unsigned 16-bit value from its little-endian byte pair.
pub fn u16_from_le(lo: u8, hi: u8) -> (value: u16)
    ensures
        value == le_u16(lo, hi),
{
    (lo as u16) + (hi as u16) * 256
}

/// Reads both stick positions, left stick first, from a report that carries
/// them; `None` for a shorter one.
pub fn decode_sticks(raw_data: &[u8]) -> (sticks: Option<[(u16, u16); 2]>)
    ensures
        raw_data@.len() < STICKS_LEN ==> sticks is None,
        raw_data@.len() >= STICKS_LEN ==> sticks is Some && sticks->0[0] == left_stick(raw_data@)
            && sticks->0[1] == right_stick(raw_data@),
{
    if raw_data.len() >= STICKS_LEN {
        let rx = u16_from_le(raw_data[0], raw_data[1]);
        let ry = u16_from_le(raw_data[2], raw_data[3]);
        let lx = u16_from_le(raw_data[4], raw_data[5]);
        let ly = u16_from_le(raw_data[6], raw_data[7]);
        Some([(lx, ly), (rx, ry)])
    } else {
        None
    }
}

/// Reads both trigger magnitudes, left first, from a report that carries them;
/// `None` for a shorter one.
pub fn decode_triggers(raw_data: &[u8]) -> (triggers: Option<(u8, u8)>)
    ensures
        triggers == if raw_data@.len() >= TRIGGERS_LEN {
            Some(trigger_pair(raw_data@))
        } else {
            None
        },
{
    if raw_data.len() >= TRIGGERS_LEN {
        Some((raw_data[LEFT_TRIGGER_OFFSET], raw_data[RIGHT_TRIGGER_OFFSET]))
    } else {
        None
    }
}

/// Splitting a 16-bit value into its little-endian bytes and reassembling them
/// gives the value back.
pub proof fn lemma_le_u16_round_trip(value: u16)
    ensures
        le_u16(le_bytes(value).0, le_bytes(value).1) == value,
{
}

/// A report that starts with the little-endian bytes of four 16-bit values
/// decodes to the first two as the right stick and the last two as the left
/// stick, whatever the values are.
pub proof fn lemma_sticks_round_trip(raw: Seq<u8>, rx: u16, ry: u16, lx: u16, ly: u16)
    requires
        raw.len() >= STICKS_LEN,
        (raw[0], raw[1]) == le_bytes(rx),
        (raw[2], raw[3]) == le_bytes(ry),
        (raw[4], raw[5]) == le_bytes(lx),
        (raw[6], raw[7]) == le_bytes(ly),
    ensures
        right_stick(raw) == (rx, ry),
        left_stick(raw) == (lx, ly),
{
    lemma_le_u16_round_trip(rx);
    lemma_le_u16_round_trip(ry);
    lemma_le_u16_round_trip(lx);
    lemma_le_u16_round_trip(ly);
}

} // verus!
