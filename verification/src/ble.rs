//! The connection lifecycle of the controller, as a state machine.
//!
//! The machine decides; the caller owns the radio. The caller feeds every
//! transport outcome to `AerodisSpaceGamepad::handle` as an `Event` and
//! carries out the `Action` that comes back.

use crate::gamepads::{
    check_gamepad_compatibility, detect_gamepad_type, family_of, is_supported, GamepadHandler,
    GamepadType,
};
use crate::gatt::{
    conn_params_of, parse_conn_params, ConnParams, CONN_PARAMS_LEN, GENERIC_ACCESS_SERVICE,
    HID_REPORT, HID_SERVICE, PREFERRED_CONN_PARAMS,
};
use crate::xboxone::Snapshot;
use vstd::prelude::*;

verus! {

/// The passkey this driver pairs with.
pub const PASSKEY: u32 = 1234;

/// Scan interval, in milliseconds.
pub const SCAN_INTERVAL_MS: u16 = 150;

/// Scan window, in milliseconds.
pub const SCAN_WINDOW_MS: u16 = 150;

/// Longest time a scan may take, in milliseconds.
pub const SCAN_TIMEOUT_MS: u32 = 10000;

/// How a scan is to be run.
#[derive(Debug, Clone, Copy, PartialEq, Eq, Structural)]
pub struct ScanParams {
    /// Whether to ask each device seen for its scan response.
    pub active: bool,
    /// Scan interval, in milliseconds.
    pub interval_ms: u16,
    /// Scan window, in milliseconds.
    pub window_ms: u16,
    /// Time after which the scan gives up, in milliseconds.
    pub timeout_ms: u32,
}

/// The parameters of every scan this driver runs: active, with the fixed
/// interval, window and timeout.
pub open spec fn scan_params() -> ScanParams {
    ScanParams {
        active: true,
        interval_ms: SCAN_INTERVAL_MS,
        window_ms: SCAN_WINDOW_MS,
        timeout_ms: SCAN_TIMEOUT_MS,
    }
}

/// The kind of a device address.
#[derive(Debug, Clone, Copy, PartialEq, Eq)]
pub enum AddressType {
    Public,
    Random,
    PublicId,
    RandomId,
}

/// The address of a device. The machine only carries it from the
/// advertisement to the connect attempt.
#[derive(Debug, Clone, Copy, PartialEq, Eq)]
pub struct DeviceAddress {
    pub kind: AddressType,
    pub bytes: [u8; 6],
}

/// One device seen during a scan.
#[derive(Debug, Clone, PartialEq, Eq)]
pub struct DeviceAdvertisement {
    pub name: String,
    pub address: DeviceAddress,
    pub payload: Vec<u8>,
}

/// How far the work on a fresh link has come.
#[derive(Debug, Clone, Copy, PartialEq, Eq, Structural)]
pub enum PairingPhase {
    /// The pairing is under way.
    Securing,
    /// The link is secure; the peer's preferred connection parameters are
    /// being read.
    ReadingParams,
    /// The report characteristic is being found and subscribed.
    Subscribing,
}

/// Where the connection stands.
#[derive(Debug, Clone, Copy, PartialEq, Eq)]
pub enum ConnectionState {
    /// Nothing going on; `start` begins a scan.
    Idle,
    /// A scan is running.
    Scanning,
    /// A supported device was seen and a connect attempt to it is under way.
    Connecting(DeviceAddress),
    /// The link is up and is being made ready, phase by phase.
    Pairing { address: DeviceAddress, phase: PairingPhase },
    /// Reports are arriving.
    Ready(DeviceAddress),
    /// The link was lost; `start` begins a new scan.
    Disconnected,
}

/// The step of the lifecycle that failed.
#[derive(Debug, Clone, Copy, PartialEq, Eq, Structural)]
pub enum Failure {
    /// The scan ended with an error.
    Scan,
    /// The connect attempt failed.
    Connect,
    /// Pairing failed.
    SecureLink,
    /// The device lacks the HID service or its report characteristic.
    Gatt,
}

/// What happened outside the machine.
#[derive(Debug, Clone, PartialEq, Eq)]
pub enum Event {
    /// The consumer asks for a connection.
    Start,
    /// The scan saw a device.
    Advertisement(DeviceAdvertisement),
    /// The scan ran for `SCAN_TIMEOUT_MS` without a supported device.
    ScanTimedOut,
    /// The scan ended with an error.
    ScanFailed,
    /// The connect attempt succeeded.
    LinkEstablished,
    /// The connect attempt failed.
    ConnectFailed,
    /// Pairing succeeded.
    LinkSecured,
    /// Pairing failed.
    SecureLinkFailed,
    /// The read of the peer's preferred connection parameters ended: with
    /// this value, or without one.
    PreferredParams(Option<Vec<u8>>),
    /// The report characteristic was found and subscribed.
    Subscribed,
    /// The HID service or its report characteristic was not found.
    GattUnresolved,
    /// The transport reported a disconnect.
    LinkLost,
}

/// What the caller has to do next.
#[derive(Debug, Clone, Copy, PartialEq, Eq)]
pub enum Action {
    /// Nothing; wait for the next event.
    Wait,
    /// Run a scan with these parameters and report each device seen, then the
    /// timeout.
    Scan(ScanParams),
    /// Connect to this address.
    Connect(DeviceAddress),
    /// Pair with the connected device.
    SecureLink,
    /// Read the peer's preferred connection parameters: the value of this
    /// characteristic of this service.
    ReadPreferredParams { service: u16, characteristic: u16 },
    /// Ask for the link to be updated to `params`, if there are any; then find
    /// this service and its characteristics of this kind that notify, and
    /// subscribe to them.
    Subscribe { params: Option<ConnParams>, service: u16, characteristic: u16 },
    /// Nothing: the controller is connected already.
    AlreadyConnected,
    /// Tell the consumer that no supported device was found; it may start
    /// again.
    NoDeviceFound,
    /// Drop the link, if there is one, and tell the consumer what failed; it
    /// may start again.
    Fail(Failure),
}

/// The connection parameters to ask for after reading `value`: what the value
/// says, or none when the read gave nothing or too little.
pub open spec fn preferred_params(value: Option<Vec<u8>>) -> Option<ConnParams> {
    match value {
        Some(bytes) => if bytes@.len() >= CONN_PARAMS_LEN {
            Some(conn_params_of(bytes@))
        } else {
            None
        },
        None => None,
    }
}

/// The connection lifecycle of one controller.
#[derive(Debug, Clone, Copy, PartialEq, Eq)]
pub struct AerodisSpaceGamepad {
    /// The family of the controller, which selects the decoder.
    pub gamepad_type: GamepadType,
    /// Where the connection stands.
    pub state: ConnectionState,
}

impl AerodisSpaceGamepad {
    /// The machine in another state.
    pub open spec fn at(self, state: ConnectionState) -> Self {
        AerodisSpaceGamepad { state, ..self }
    }

    /// The consumer may rely on the decoded state: the machine is `Ready`.
    pub open spec fn is_connected(self) -> bool {
        self.state is Ready
    }

    /// The device that the machine is connecting or connected to.
    pub open spec fn peer(self) -> Option<DeviceAddress> {
        match self.state {
            ConnectionState::Connecting(address) => Some(address),
            ConnectionState::Pairing { address, phase: _ } => Some(address),
            ConnectionState::Ready(address) => Some(address),
            _ => None,
        }
    }

    /// The machine after `event`, and what the caller has to do. A start from
    /// `Disconnected` goes by way of `Idle` straight into the scan. An event
    /// that the state does not wait for changes nothing.
    pub open spec fn step(self, event: Event) -> (Self, Action) {
        match (self.state, event) {
            (ConnectionState::Idle, Event::Start) => (
                self.at(ConnectionState::Scanning),
                Action::Scan(scan_params()),
            ),
            (ConnectionState::Disconnected, Event::Start) => (
                self.at(ConnectionState::Scanning),
                Action::Scan(scan_params()),
            ),
            (ConnectionState::Ready(_), Event::Start) => (self, Action::AlreadyConnected),
            (ConnectionState::Scanning, Event::Advertisement(seen)) => if is_supported(
                seen.name@,
            ) {
                (
                    AerodisSpaceGamepad {
                        gamepad_type: match family_of(seen.name@) {
                            Some(family) => family,
                            None => self.gamepad_type,
                        },
                        state: ConnectionState::Connecting(seen.address),
                    },
                    Action::Connect(seen.address),
                )
            } else {
                (self, Action::Wait)
            },
            (ConnectionState::Scanning, Event::ScanTimedOut) => (
                self.at(ConnectionState::Idle),
                Action::NoDeviceFound,
            ),
            (ConnectionState::Scanning, Event::ScanFailed) => (
                self.at(ConnectionState::Idle),
                Action::Fail(Failure::Scan),
            ),
            (ConnectionState::Connecting(address), Event::LinkEstablished) => (
                self.at(ConnectionState::Pairing { address, phase: PairingPhase::Securing }),
                Action::SecureLink,
            ),
            (ConnectionState::Connecting(_), Event::ConnectFailed) => (
                self.at(ConnectionState::Idle),
                Action::Fail(Failure::Connect),
            ),
            (
                ConnectionState::Pairing { address, phase: PairingPhase::Securing },
                Event::LinkSecured,
            ) => (
                self.at(ConnectionState::Pairing { address, phase: PairingPhase::ReadingParams }),
                Action::ReadPreferredParams {
                    service: GENERIC_ACCESS_SERVICE,
                    characteristic: PREFERRED_CONN_PARAMS,
                },
            ),
            (
                ConnectionState::Pairing { address, phase: PairingPhase::Securing },
                Event::SecureLinkFailed,
            ) => (self.at(ConnectionState::Idle), Action::Fail(Failure::SecureLink)),
            (
                ConnectionState::Pairing { address, phase: PairingPhase::ReadingParams },
                Event::PreferredParams(value),
            ) => (
                self.at(ConnectionState::Pairing { address, phase: PairingPhase::Subscribing }),
                Action::Subscribe {
                    params: preferred_params(value),
                    service: HID_SERVICE,
                    characteristic: HID_REPORT,
                },
            ),
            (
                ConnectionState::Pairing { address, phase: PairingPhase::Subscribing },
                Event::Subscribed,
            ) => (self.at(ConnectionState::Ready(address)), Action::Wait),
            (
                ConnectionState::Pairing { address, phase: PairingPhase::Subscribing },
                Event::GattUnresolved,
            ) => (self.at(ConnectionState::Idle), Action::Fail(Failure::Gatt)),
            (ConnectionState::Pairing { .. }, Event::LinkLost) => (
                self.at(ConnectionState::Disconnected),
                Action::Wait,
            ),
            (ConnectionState::Ready(_), Event::LinkLost) => (
                self.at(ConnectionState::Disconnected),
                Action::Wait,
            ),
            _ => (self, Action::Wait),
        }
    }

    /// The machine after `event`.
    pub open spec fn after(self, event: Event) -> Self {
        self.step(event).0
    }

    /// The machine after each of `events` in turn.
    pub open spec fn after_all(self, events: Seq<Event>) -> Self
        decreases events.len(),
    {
        if events.len() == 0 {
            self
        } else {
            self.after(events[0]).after_all(events.drop_first())
        }
    }

    /// An idle machine for a controller of the given family.
    pub fn new(gamepad_type: GamepadType) -> (machine: Self)
        ensures
            machine.gamepad_type == gamepad_type,
            machine.state is Idle,
    {
        AerodisSpaceGamepad { gamepad_type, state: ConnectionState::Idle }
    }

    /// Tells whether the controller is connected and its reports are arriving.
    pub fn connected(&self) -> (connected: bool)
        ensures
            connected == self.is_connected(),
    {
        match self.state {
            ConnectionState::Ready(_) => true,
            _ => false,
        }
    }

    /// The address of the device that the machine is connecting or connected
    /// to.
    pub fn address(&self) -> (address: Option<DeviceAddress>)
        ensures
            address == self.peer(),
    {
        match self.state {
            ConnectionState::Connecting(a) => Some(a),
            ConnectionState::Pairing { address: a, phase: _ } => Some(a),
            ConnectionState::Ready(a) => Some(a),
            _ => None,
        }
    }

    /// Takes in one event and says what to do next.
    pub fn handle(&mut self, event: &Event) -> (action: Action)
        ensures
            (*final(self), action) == old(self).step(*event),
    {
        match event {
            Event::Start => match self.state {
                ConnectionState::Idle => {
                    self.state = ConnectionState::Scanning;
                    Action::Scan(new_scan())
                },
                ConnectionState::Disconnected => {
                    self.state = ConnectionState::Scanning;
                    Action::Scan(new_scan())
                },
                ConnectionState::Ready(_) => Action::AlreadyConnected,
                _ => Action::Wait,
            },
            Event::Advertisement(seen) => match self.state {
                ConnectionState::Scanning => {
                    if check_gamepad_compatibility(seen.name.as_str()) {
                        match detect_gamepad_type(seen.name.as_str()) {
                            Some(family) => {
                                self.gamepad_type = family;
                            },
                            None => {},
                        }
                        self.state = ConnectionState::Connecting(seen.address);
                        Action::Connect(seen.address)
                    } else {
                        Action::Wait
                    }
                },
                _ => Action::Wait,
            },
            Event::ScanTimedOut => match self.state {
                ConnectionState::Scanning => {
                    self.state = ConnectionState::Idle;
                    Action::NoDeviceFound
                },
                _ => Action::Wait,
            },
            Event::ScanFailed => match self.state {
                ConnectionState::Scanning => {
                    self.state = ConnectionState::Idle;
                    Action::Fail(Failure::Scan)
                },
                _ => Action::Wait,
            },
            Event::LinkEstablished => match self.state {
                ConnectionState::Connecting(address) => {
                    self.state = ConnectionState::Pairing {
                        address,
                        phase: PairingPhase::Securing,
                    };
                    Action::SecureLink
                },
                _ => Action::Wait,
            },
            Event::ConnectFailed => match self.state {
                ConnectionState::Connecting(_) => {
                    self.state = ConnectionState::Idle;
                    Action::Fail(Failure::Connect)
                },
                _ => Action::Wait,
            },
            Event::LinkSecured => match self.state {
                ConnectionState::Pairing { address, phase: PairingPhase::Securing } => {
                    self.state = ConnectionState::Pairing {
                        address,
                        phase: PairingPhase::ReadingParams,
                    };
                    Action::ReadPreferredParams {
                        service: GENERIC_ACCESS_SERVICE,
                        characteristic: PREFERRED_CONN_PARAMS,
                    }
                },
                _ => Action::Wait,
            },
            Event::SecureLinkFailed => match self.state {
                ConnectionState::Pairing { address: _, phase: PairingPhase::Securing } => {
                    self.state = ConnectionState::Idle;
                    Action::Fail(Failure::SecureLink)
                },
                _ => Action::Wait,
            },
            Event::PreferredParams(value) => match self.state {
                ConnectionState::Pairing { address, phase: PairingPhase::ReadingParams } => {
                    self.state = ConnectionState::Pairing {
                        address,
                        phase: PairingPhase::Subscribing,
                    };
                    let params = match value {
                        Some(bytes) => parse_conn_params(bytes.as_slice()),
                        None => None,
                    };
                    Action::Subscribe { params, service: HID_SERVICE, characteristic: HID_REPORT }
                },
                _ => Action::Wait,
            },
            Event::Subscribed => match self.state {
                ConnectionState::Pairing { address, phase: PairingPhase::Subscribing } => {
                    self.state = ConnectionState::Ready(address);
                    Action::Wait
                },
                _ => Action::Wait,
            },
            Event::GattUnresolved => match self.state {
                ConnectionState::Pairing { address: _, phase: PairingPhase::Subscribing } => {
                    self.state = ConnectionState::Idle;
                    Action::Fail(Failure::Gatt)
                },
                _ => Action::Wait,
            },
            Event::LinkLost => match self.state {
                ConnectionState::Pairing { .. } => {
                    self.state = ConnectionState::Disconnected;
                    Action::Wait
                },
                ConnectionState::Ready(_) => {
                    self.state = ConnectionState::Disconnected;
                    Action::Wait
                },
                _ => Action::Wait,
            },
        }
    }

    /// Asks for a connection: begins a scan from `Idle` or `Disconnected`, and
    /// changes nothing when the controller is connected already.
    pub fn start(&mut self) -> (action: Action)
        ensures
            (*final(self), action) == old(self).step(Event::Start),
            old(self).is_connected() ==> *final(self) == *old(self) && action
                is AlreadyConnected,
    {
        self.handle(&Event::Start)
    }

    /// A fresh decoder state for the controller's family.
    pub fn get_gamepad_packet(&self) -> (handler: GamepadHandler)
        ensures
            handler.family() == self.gamepad_type,
            handler@ == Snapshot::initial(),
    {
        GamepadHandler::new(self.gamepad_type)
    }
}

/// The parameters to scan with.
pub fn new_scan() -> (params: ScanParams)
    ensures
        params == scan_params(),
{
    ScanParams {
        active: true,
        interval_ms: SCAN_INTERVAL_MS,
        window_ms: SCAN_WINDOW_MS,
        timeout_ms: SCAN_TIMEOUT_MS,
    }
}

/// The passkey to hand out when the peer asks for one.
pub fn passkey_on_request() -> (passkey: u32)
    ensures
        passkey == PASSKEY,
{
    PASSKEY
}

/// Decides a passkey-confirmation challenge: the shown value is confirmed when
/// it is the driver's passkey, and refused otherwise.
pub fn confirm_pin(pin: u32) -> (confirmed: bool)
    ensures
        confirmed == (pin == PASSKEY),
{
    pin == PASSKEY
}

/// Starting while connected is idempotent: the machine stays as it is, still
/// connected, and no scan is asked for.
pub proof fn lemma_start_when_ready_is_idempotent(machine: AerodisSpaceGamepad)
    requires
        machine.is_connected(),
    ensures
        machine.step(Event::Start) == (machine, Action::AlreadyConnected),
        machine.after(Event::Start).is_connected(),
        machine.after(Event::Start).after(Event::Start) == machine,
{
}

/// A disconnect while connected leaves the machine `Disconnected`: not
/// connected, and without a device.
pub proof fn lemma_link_lost_disconnects(machine: AerodisSpaceGamepad)
    requires
        machine.is_connected(),
    ensures
        machine.after(Event::LinkLost).state is Disconnected,
        !machine.after(Event::LinkLost).is_connected(),
        machine.after(Event::LinkLost).peer() is None,
{
}

/// An idle or disconnected machine stays as it is, and so not connected,
/// whatever happens, until it is started.
pub proof fn lemma_stays_down_until_started(machine: AerodisSpaceGamepad, events: Seq<Event>)
    requires
        machine.state is Idle || machine.state is Disconnected,
        forall|i: int| 0 <= i < events.len() ==> !(#[trigger] events[i] is Start),
    ensures
        machine.after_all(events) == machine,
        !machine.after_all(events).is_connected(),
    decreases events.len(),
{
    if events.len() > 0 {
        assert(!(events[0] is Start));
        assert(machine.after(events[0]) == machine);
        let rest = events.drop_first();
        assert forall|i: int| 0 <= i < rest.len() implies !(#[trigger] rest[i] is Start) by {
            assert(rest[i] == events[i + 1]);
        }
        lemma_stays_down_until_started(machine, rest);
    }
}

/// A start that meets a supported device and then succeeds at every step ends
/// connected to that device, whatever the read of the preferred connection
/// parameters gave.
pub proof fn lemma_successful_start_connects(
    machine: AerodisSpaceGamepad,
    seen: DeviceAdvertisement,
    params: Option<Vec<u8>>,
)
    requires
        machine.state is Idle || machine.state is Disconnected,
        is_supported(seen.name@),
    ensures
        machine.after(Event::Start).after(Event::Advertisement(seen)).after(
            Event::LinkEstablished,
        ).after(Event::LinkSecured).after(Event::PreferredParams(params)).after(
            Event::Subscribed,
        ).state == ConnectionState::Ready(seen.address),
{
}

/// The machine becomes connected in one way only: the subscription succeeds
/// on a link that was paired before.
pub proof fn lemma_ready_only_after_subscription(machine: AerodisSpaceGamepad, event: Event)
    requires
        !machine.is_connected(),
        machine.after(event).is_connected(),
    ensures
        event is Subscribed,
        machine.state matches ConnectionState::Pairing { address, phase } && phase
            is Subscribing && machine.after(event).state == ConnectionState::Ready(address),
{
}

/// After the pairing the link is asked to take the parameters that the peer
/// prefers: exactly those that the value read from it holds.
pub proof fn lemma_preferred_params_are_applied(
    machine: AerodisSpaceGamepad,
    address: DeviceAddress,
    value: Vec<u8>,
)
    requires
        machine.state == (ConnectionState::Pairing { address, phase: PairingPhase::Securing }),
        value@.len() >= CONN_PARAMS_LEN,
    ensures
        machine.step(Event::LinkSecured).1 is ReadPreferredParams,
        machine.after(Event::LinkSecured).step(Event::PreferredParams(Some(value))).1 == (
            Action::Subscribe {
                params: Some(conn_params_of(value@)),
                service: HID_SERVICE,
                characteristic: HID_REPORT,
            }
        ),
{
}

/// The machine picks its device during the scan, the first supported one it
/// sees, and keeps to it: while it has a device, no event gives it another.
pub proof fn lemma_peer_is_kept(machine: AerodisSpaceGamepad, event: Event)
    requires
        machine.peer() is Some,
    ensures
        machine.after(event).peer() is None || machine.after(event).peer() == machine.peer(),
{
}

/// A scan that sees no supported device changes nothing while it runs.
pub proof fn lemma_unsupported_devices_are_passed_over(
    machine: AerodisSpaceGamepad,
    events: Seq<Event>,
)
    requires
        machine.state is Scanning,
        forall|i: int|
            0 <= i < events.len() ==> (#[trigger] events[i] matches Event::Advertisement(seen)
                && !is_supported(seen.name@)),
    ensures
        machine.after_all(events) == machine,
    decreases events.len(),
{
    if events.len() > 0 {
        assert(events[0] is Advertisement);
        assert(machine.after(events[0]) == machine);
        let rest = events.drop_first();
        assert forall|i: int| 0 <= i < rest.len() implies (#[trigger] rest[i] matches Event::Advertisement(
            seen,
        ) && !is_supported(seen.name@)) by {
            assert(rest[i] == events[i + 1]);
        }
        lemma_unsupported_devices_are_passed_over(machine, rest);
    }
}

/// A scan that times out without a match puts the machine back to `Idle`, not
/// connected, with the consumer told that no device was found; a new start
/// then scans again.
pub proof fn lemma_scan_timeout_returns_to_idle(machine: AerodisSpaceGamepad)
    requires
        machine.state is Scanning,
    ensures
        machine.step(Event::ScanTimedOut) == (
            machine.at(ConnectionState::Idle),
            Action::NoDeviceFound,
        ),
        !machine.after(Event::ScanTimedOut).is_connected(),
        machine.after(Event::ScanTimedOut).step(Event::Start) == (
            machine,
            Action::Scan(scan_params()),
        ),
{
}

/// Whatever fails, the machine is back at `Idle`, from where it can be started
/// again.
pub proof fn lemma_failure_returns_to_idle(machine: AerodisSpaceGamepad, event: Event)
    requires
        machine.step(event).1 is Fail,
    ensures
        machine.after(event).state is Idle,
        machine.after(event).step(Event::Start).1 is Scan,
{
}

} // verus!
