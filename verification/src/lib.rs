//! Driver core for a Bluetooth Low Energy game controller: the advertised-name
//! filter, the connection lifecycle and the decoder of HID input reports.

pub mod ble;
pub mod buttons;
pub mod gamepads;
pub mod gatt;
pub mod packet;
pub mod report;
pub mod xboxone;
