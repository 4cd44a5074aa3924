//! The GATT identifiers the driver depends on, and what it works out from the
//! services, characteristics and values that the transport hands it.

use crate::report::{le_u16, u16_from_le};
use vstd::prelude::*;
use vstd::utf8::{encode_utf8, valid_utf8};

verus! {

/// Generic Access service.
pub const GENERIC_ACCESS_SERVICE: u16 = 0x1800;

/// Device Name characteristic of the Generic Access service.
pub const DEVICE_NAME: u16 = 0x2A00;

/// Peripheral Preferred Connection Parameters characteristic of the Generic
/// Access service.
pub const PREFERRED_CONN_PARAMS: u16 = 0x2A04;

/// Device Information service.
pub const DEVICE_INFORMATION_SERVICE: u16 = 0x180A;

/// Manufacturer Name characteristic of the Device Information service.
pub const MANUFACTURER_NAME: u16 = 0x2A29;

/// Firmware Revision characteristic of the Device Information service.
pub const FIRMWARE_REVISION: u16 = 0x2A26;

/// Serial Number characteristic of the Device Information service.
pub const SERIAL_NUMBER: u16 = 0x2A25;

/// Human Interface Device service.
pub const HID_SERVICE: u16 = 0x1812;

/// Report characteristic of the HID service: the one that notifies input
/// reports.
pub const HID_REPORT: u16 = 0x2A4D;

/// First member of the controller's vendor-specific UUID family,
/// `00000000-5F60-4C4F-9C83-A7953298D40D`. The members differ in the last
/// digit of the first group.
pub const VENDOR_UUID_BASE: u128 = 0x0000_0000_5F60_4C4F_9C83_A795_3298_D40D;

/// Distance between two neighbouring members of the vendor-specific family.
pub const VENDOR_UUID_STEP: u128 = 0x0000_0001_0000_0000_0000_0000_0000_0000;

/// Number of members of the vendor-specific family.
pub const VENDOR_UUID_COUNT: u8 = 16;

/// Number of bytes of a Peripheral Preferred Connection Parameters value.
pub const CONN_PARAMS_LEN: usize = 8;

/// A GATT UUID in the width it was given in.
#[derive(Debug, Clone, Copy, PartialEq, Eq, Structural)]
pub enum GattUuid {
    Uuid16(u16),
    Uuid32(u32),
    Uuid128(u128),
}

/// The `index`-th member of the vendor-specific family.
pub open spec fn vendor_uuid(index: u8) -> u128 {
    (VENDOR_UUID_BASE + index * VENDOR_UUID_STEP) as u128
}

impl GattUuid {
    /// This is the 16-bit UUID `id`.
    pub open spec fn is_short(self, id: u16) -> bool {
        self == GattUuid::Uuid16(id)
    }

    /// Tells whether this is the 16-bit UUID `id`.
    pub fn is_uuid16(&self, id: u16) -> (same: bool)
        ensures
            same == self.is_short(id),
    {
        match self {
            GattUuid::Uuid16(value) => *value == id,
            _ => false,
        }
    }

    /// The place of this UUID in the vendor-specific family; `None` when it is
    /// not a member.
    pub fn vendor_index(&self) -> (index: Option<u8>)
        ensures
            match index {
                Some(i) => i < VENDOR_UUID_COUNT && *self == GattUuid::Uuid128(vendor_uuid(i)),
                None => forall|i: u8|
                    i < VENDOR_UUID_COUNT ==> *self != GattUuid::Uuid128(#[trigger] vendor_uuid(i)),
            },
    {
        match self {
            GattUuid::Uuid128(value) => {
                let value: u128 = *value;
                if value < VENDOR_UUID_BASE {
                    return None;
                }
                let offset: u128 = value - VENDOR_UUID_BASE;
                if offset % VENDOR_UUID_STEP == 0 && offset / VENDOR_UUID_STEP < 16 {
                    let index: u8 = (offset / VENDOR_UUID_STEP) as u8;
                    Some(index)
                } else {
                    None
                }
            },
            _ => None,
        }
    }
}

/// What the driver looks at in a characteristic.
#[derive(Debug, Clone, Copy, PartialEq, Eq, Structural)]
pub struct CharacteristicInfo {
    pub uuid: GattUuid,
    pub can_read: bool,
    pub can_notify: bool,
}

impl CharacteristicInfo {
    /// This is a Report characteristic to subscribe to: readable and
    /// notifying.
    pub open spec fn is_report(self) -> bool {
        self.can_read && self.can_notify && self.uuid.is_short(HID_REPORT)
    }

    /// This is a Report characteristic whose value can be read on demand.
    pub open spec fn is_readable(self) -> bool {
        self.can_read && self.uuid.is_short(HID_REPORT)
    }

    /// Tells whether this is a Report characteristic whose value can be read
    /// on demand.
    pub fn is_readable_report(&self) -> (readable: bool)
        ensures
            readable == self.is_readable(),
    {
        self.can_read && self.uuid.is_uuid16(HID_REPORT)
    }

    /// Tells whether this is a Report characteristic to subscribe to.
    pub fn is_report_characteristic(&self) -> (report: bool)
        ensures
            report == self.is_report(),
    {
        self.can_read && self.can_notify && self.uuid.is_uuid16(HID_REPORT)
    }
}

/// Finds the HID service among the services of a device: the last of them,
/// should there be several; `None` when the device has none.
pub fn select_hid_service(services: &Vec<GattUuid>) -> (found: Option<usize>)
    ensures
        match found {
            Some(at) => at < services@.len() && services@[at as int].is_short(HID_SERVICE)
                && forall|j: int|
                at < j < services@.len() ==> !(#[trigger] services@[j]).is_short(HID_SERVICE),
            None => forall|j: int|
                0 <= j < services@.len() ==> !(#[trigger] services@[j]).is_short(HID_SERVICE),
        },
{
    let mut found: Option<usize> = None;
    let mut i: usize = 0;
    while i < services.len()
        invariant
            i <= services@.len(),
            match found {
                Some(at) => at < i && services@[at as int].is_short(HID_SERVICE) && forall|j: int|
                    at < j < i ==> !(#[trigger] services@[j]).is_short(HID_SERVICE),
                None => forall|j: int|
                    0 <= j < i ==> !(#[trigger] services@[j]).is_short(HID_SERVICE),
            },
        decreases services@.len() - i,
    {
        if services[i].is_uuid16(HID_SERVICE) {
            found = Some(i);
        }
        i += 1;
    }
    found
}

/// Lists the characteristics to subscribe to: the places of all Report
/// characteristics among `characteristics`, in order.
pub fn report_characteristics(characteristics: &Vec<CharacteristicInfo>) -> (places: Vec<usize>)
    ensures
        forall|k: int|
            0 <= k < places@.len() ==> (#[trigger] places@[k]) < characteristics@.len()
                && characteristics@[places@[k] as int].is_report(),
        forall|k: int, l: int| 0 <= k < l < places@.len() ==> places@[k] < places@[l],
        forall|i: int|
            0 <= i < characteristics@.len() && (#[trigger] characteristics@[i]).is_report()
                ==> places@.contains(i as usize),
{
    let mut places: Vec<usize> = Vec::new();
    let mut i: usize = 0;
    while i < characteristics.len()
        invariant
            i <= characteristics@.len(),
            forall|k: int|
                0 <= k < places@.len() ==> (#[trigger] places@[k]) < i
                    && characteristics@[places@[k] as int].is_report(),
            forall|k: int, l: int| 0 <= k < l < places@.len() ==> places@[k] < places@[l],
            forall|j: int|
                0 <= j < i && (#[trigger] characteristics@[j]).is_report() ==> places@.contains(
                    j as usize,
                ),
        decreases characteristics@.len() - i,
    {
        if characteristics[i].is_report_characteristic() {
            let ghost before = places@;
            places.push(i);
            proof {
                assert(places@[before.len() as int] == i);
                assert forall|j: int|
                    0 <= j < i + 1 && (#[trigger] characteristics@[j]).is_report() implies places@.contains(
                    j as usize,
                ) by {
                    if j < i {
                        let k = choose|k: int| 0 <= k < before.len() && before[k] == j as usize;
                        assert(places@[k] == j as usize);
                    }
                }
            }
        }
        i += 1;
    }
    places
}

/// The connection parameters that a peripheral prefers, in the units in which
/// the peripheral gives them.
#[derive(Debug, Clone, Copy, PartialEq, Eq, Structural)]
pub struct ConnParams {
    /// Minimum connection interval.
    pub min_interval: u16,
    /// Maximum connection interval.
    pub max_interval: u16,
    /// Peripheral latency.
    pub latency: u16,
    /// Supervision timeout.
    pub timeout: u16,
}

/// What a Peripheral Preferred Connection Parameters value of at least
/// `CONN_PARAMS_LEN` bytes says: four little-endian 16-bit fields.
pub open spec fn conn_params_of(values: Seq<u8>) -> ConnParams {
    ConnParams {
        min_interval: le_u16(values[0], values[1]),
        max_interval: le_u16(values[2], values[3]),
        latency: le_u16(values[4], values[5]),
        timeout: le_u16(values[6], values[7]),
    }
}

/// Decodes a Peripheral Preferred Connection Parameters value; `None` when it
/// is too short.
pub fn parse_conn_params(values: &[u8]) -> (params: Option<ConnParams>)
    ensures
        params == if values@.len() >= CONN_PARAMS_LEN {
            Some(conn_params_of(values@))
        } else {
            None
        },
{
    if values.len() >= CONN_PARAMS_LEN {
        Some(
            ConnParams {
                min_interval: u16_from_le(values[0], values[1]),
                max_interval: u16_from_le(values[2], values[3]),
                latency: u16_from_le(values[4], values[5]),
                timeout: u16_from_le(values[6], values[7]),
            },
        )
    } else {
        None
    }
}

/// What the device says of itself. A field is absent when the device did not
/// give it or gave bytes that are no text.
#[derive(Debug, Clone, PartialEq, Eq)]
pub struct DeviceInfo {
    pub name: Option<String>,
    pub manufacturer: Option<String>,
    pub firmware_revision: Option<String>,
    pub serial_number: Option<String>,
}

/// `text` is what reading `value` gives: the text that the bytes encode, and
/// nothing when the read failed or the bytes are not UTF-8.
pub open spec fn is_text_of(text: Option<String>, value: Option<Vec<u8>>) -> bool {
    match value {
        Some(bytes) => match text {
            Some(s) => valid_utf8(bytes@) && encode_utf8(s@) == bytes@,
            None => !valid_utf8(bytes@),
        },
        None => text is None,
    }
}

/// `String::from_utf8` of std: the string with exactly these bytes when they
/// are valid UTF-8, and nothing when they are not.
#[verifier::external_body]
fn text_from_utf8(bytes: Vec<u8>) -> (text: Option<String>)
    ensures
        text is Some <==> valid_utf8(bytes@),
        text matches Some(s) ==> encode_utf8(s@) == bytes@,
{
    match String::from_utf8(bytes) {
        Ok(text) => Some(text),
        Err(_) => None,
    }
}

/// Turns the value of a text characteristic into text, if there is a value
/// and it is UTF-8.
pub fn decode_text(value: Option<Vec<u8>>) -> (text: Option<String>)
    ensures
        is_text_of(text, value),
{
    match value {
        Some(bytes) => text_from_utf8(bytes),
        None => None,
    }
}

impl DeviceInfo {
    /// Puts together what was read from the device. Each argument is the value
    /// of one characteristic, or `None` where the read failed; every field is
    /// decoded by itself, so any of them may be absent.
    pub fn from_values(
        name: Option<Vec<u8>>,
        manufacturer: Option<Vec<u8>>,
        firmware_revision: Option<Vec<u8>>,
        serial_number: Option<Vec<u8>>,
    ) -> (info: Self)
        ensures
            is_text_of(info.name, name),
            is_text_of(info.manufacturer, manufacturer),
            is_text_of(info.firmware_revision, firmware_revision),
            is_text_of(info.serial_number, serial_number),
    {
        DeviceInfo {
            name: decode_text(name),
            manufacturer: decode_text(manufacturer),
            firmware_revision: decode_text(firmware_revision),
            serial_number: decode_text(serial_number),
        }
    }
}

} // verus!
