use aerodisspace_gamepad::ble::{
    confirm_pin, new_scan, passkey_on_request, Action, AddressType, AerodisSpaceGamepad, ConnectionState,
    DeviceAddress, DeviceAdvertisement, Event, Failure, PairingPhase, ScanParams, PASSKEY,
    SCAN_INTERVAL_MS,
    SCAN_TIMEOUT_MS, SCAN_WINDOW_MS,
};
use aerodisspace_gamepad::gamepads::{GamepadHandler, GamepadType};
use aerodisspace_gamepad::gatt::ConnParams;
use aerodisspace_gamepad::xboxone::GamepadXboxOne;

fn address(last: u8) -> DeviceAddress {
    DeviceAddress { kind: AddressType::Public, bytes: [1, 2, 3, 4, 5, last] }
}

fn seen(name: &str, last: u8) -> Event {
    Event::Advertisement(DeviceAdvertisement {
        name: String::from(name),
        address: address(last),
        payload: vec![2, 1, 6],
    })
}

fn read_params() -> Action {
    Action::ReadPreferredParams { service: 0x1800, characteristic: 0x2A04 }
}

fn subscribe(params: Option<ConnParams>) -> Action {
    Action::Subscribe { params, service: 0x1812, characteristic: 0x2A4D }
}

fn ready() -> AerodisSpaceGamepad {
    let mut machine = AerodisSpaceGamepad::new(GamepadType::XboxOne);
    assert_eq!(machine.start(), Action::Scan(new_scan()));
    assert_eq!(machine.handle(&seen("Xbox Wireless Controller", 9)), Action::Connect(address(9)));
    assert_eq!(machine.handle(&Event::LinkEstablished), Action::SecureLink);
    assert_eq!(machine.handle(&Event::LinkSecured), read_params());
    assert_eq!(machine.handle(&Event::PreferredParams(None)), subscribe(None));
    assert_eq!(machine.handle(&Event::Subscribed), Action::Wait);
    machine
}

#[test]
fn new_machine_is_idle() {
    let machine = AerodisSpaceGamepad::new(GamepadType::XboxOne);
    assert_eq!(machine.state, ConnectionState::Idle);
    assert_eq!(machine.gamepad_type, GamepadType::XboxOne);
    assert!(!machine.connected());
    assert_eq!(machine.address(), None);
}

#[test]
fn lifecycle_runs_from_idle_to_ready() {
    let mut machine = AerodisSpaceGamepad::new(GamepadType::XboxOne);
    assert_eq!(machine.start(), Action::Scan(new_scan()));
    assert_eq!(machine.state, ConnectionState::Scanning);
    assert_eq!(machine.handle(&seen("Xbox Wireless Controller", 9)), Action::Connect(address(9)));
    assert_eq!(machine.state, ConnectionState::Connecting(address(9)));
    assert_eq!(machine.address(), Some(address(9)));
    assert_eq!(machine.handle(&Event::LinkEstablished), Action::SecureLink);
    assert_eq!(
        machine.state,
        ConnectionState::Pairing { address: address(9), phase: PairingPhase::Securing }
    );
    assert!(!machine.connected());
    assert_eq!(machine.handle(&Event::LinkSecured), read_params());
    assert_eq!(
        machine.state,
        ConnectionState::Pairing { address: address(9), phase: PairingPhase::ReadingParams }
    );
    let value = vec![0x06, 0x00, 0x0C, 0x00, 0x00, 0x00, 0x2C, 0x01];
    assert_eq!(
        machine.handle(&Event::PreferredParams(Some(value))),
        subscribe(Some(ConnParams { min_interval: 6, max_interval: 12, latency: 0, timeout: 300 }))
    );
    assert_eq!(
        machine.state,
        ConnectionState::Pairing { address: address(9), phase: PairingPhase::Subscribing }
    );
    assert!(!machine.connected());
    assert_eq!(machine.handle(&Event::Subscribed), Action::Wait);
    assert_eq!(machine.state, ConnectionState::Ready(address(9)));
    assert!(machine.connected());
    assert_eq!(machine.address(), Some(address(9)));
}

#[test]
fn start_when_ready_is_idempotent() {
    let mut machine = ready();
    let before = machine;
    assert_eq!(machine.start(), Action::AlreadyConnected);
    assert_eq!(machine, before);
    assert!(machine.connected());
    assert_eq!(machine.start(), Action::AlreadyConnected);
    assert_eq!(machine.handle(&Event::Start), Action::AlreadyConnected);
    assert_eq!(machine, before);
}

#[test]
fn disconnect_while_ready_until_started_again() {
    let mut machine = ready();
    assert_eq!(machine.handle(&Event::LinkLost), Action::Wait);
    assert_eq!(machine.state, ConnectionState::Disconnected);
    assert!(!machine.connected());
    assert_eq!(machine.address(), None);

    for event in [
        Event::Subscribed,
        Event::PreferredParams(None),
        Event::LinkSecured,
        Event::LinkEstablished,
        seen("Xbox Wireless Controller", 9),
        Event::ScanTimedOut,
        Event::LinkLost,
    ] {
        assert_eq!(machine.handle(&event), Action::Wait);
        assert_eq!(machine.state, ConnectionState::Disconnected);
        assert!(!machine.connected());
    }

    assert_eq!(machine.start(), Action::Scan(new_scan()));
    assert!(!machine.connected());
    assert_eq!(machine.handle(&seen("XBOX WIRELESS CONTROLLER", 4)), Action::Connect(address(4)));
    assert_eq!(machine.handle(&Event::LinkEstablished), Action::SecureLink);
    assert_eq!(machine.handle(&Event::LinkSecured), read_params());
    assert_eq!(machine.handle(&Event::PreferredParams(Some(vec![1, 2, 3]))), subscribe(None));
    assert!(!machine.connected());
    assert_eq!(machine.handle(&Event::Subscribed), Action::Wait);
    assert!(machine.connected());
    assert_eq!(machine.address(), Some(address(4)));
}

#[test]
fn scan_without_match_returns_to_idle() {
    let mut machine = AerodisSpaceGamepad::new(GamepadType::XboxOne);
    assert_eq!(machine.start(), Action::Scan(new_scan()));
    assert_eq!(machine.handle(&seen("DualSense", 1)), Action::Wait);
    assert_eq!(machine.handle(&seen("", 2)), Action::Wait);
    assert_eq!(machine.state, ConnectionState::Scanning);
    assert_eq!(machine.handle(&Event::ScanTimedOut), Action::NoDeviceFound);
    assert_eq!(machine.state, ConnectionState::Idle);
    assert!(!machine.connected());
    assert_eq!(machine.start(), Action::Scan(new_scan()));
    assert_eq!(machine.state, ConnectionState::Scanning);
}

#[test]
fn first_match_wins() {
    let mut machine = AerodisSpaceGamepad::new(GamepadType::XboxOne);
    machine.start();
    assert_eq!(machine.handle(&seen("Keyboard", 1)), Action::Wait);
    assert_eq!(machine.handle(&seen("Xbox Wireless Controller", 2)), Action::Connect(address(2)));
    assert_eq!(machine.handle(&seen("Xbox Wireless Controller", 3)), Action::Wait);
    assert_eq!(machine.state, ConnectionState::Connecting(address(2)));
}

#[test]
fn scan_error_is_a_failure_and_idle() {
    let mut machine = AerodisSpaceGamepad::new(GamepadType::XboxOne);
    machine.start();
    assert_eq!(machine.handle(&Event::ScanFailed), Action::Fail(Failure::Scan));
    assert_eq!(machine.state, ConnectionState::Idle);
    assert_eq!(machine.start(), Action::Scan(new_scan()));
}

#[test]
fn connect_error_is_a_failure_and_idle() {
    let mut machine = AerodisSpaceGamepad::new(GamepadType::XboxOne);
    machine.start();
    machine.handle(&seen("Xbox Wireless Controller", 2));
    assert_eq!(machine.handle(&Event::ConnectFailed), Action::Fail(Failure::Connect));
    assert_eq!(machine.state, ConnectionState::Idle);
    assert_eq!(machine.address(), None);
    assert_eq!(machine.start(), Action::Scan(new_scan()));
}

#[test]
fn pairing_error_is_a_failure_and_idle() {
    let mut machine = AerodisSpaceGamepad::new(GamepadType::XboxOne);
    machine.start();
    machine.handle(&seen("Xbox Wireless Controller", 2));
    machine.handle(&Event::LinkEstablished);
    assert_eq!(machine.handle(&Event::SecureLinkFailed), Action::Fail(Failure::SecureLink));
    assert_eq!(machine.state, ConnectionState::Idle);
    assert!(!machine.connected());
}

#[test]
fn missing_service_is_a_failure_and_idle() {
    let mut machine = AerodisSpaceGamepad::new(GamepadType::XboxOne);
    machine.start();
    machine.handle(&seen("Xbox Wireless Controller", 2));
    machine.handle(&Event::LinkEstablished);
    machine.handle(&Event::LinkSecured);
    machine.handle(&Event::PreferredParams(None));
    assert_eq!(machine.handle(&Event::GattUnresolved), Action::Fail(Failure::Gatt));
    assert_eq!(machine.state, ConnectionState::Idle);
    assert!(!machine.connected());
    assert_eq!(machine.start(), Action::Scan(new_scan()));
}

#[test]
fn disconnect_during_pairing_goes_to_disconnected() {
    let mut machine = AerodisSpaceGamepad::new(GamepadType::XboxOne);
    machine.start();
    machine.handle(&seen("Xbox Wireless Controller", 2));
    machine.handle(&Event::LinkEstablished);
    assert_eq!(machine.handle(&Event::LinkLost), Action::Wait);
    assert_eq!(machine.state, ConnectionState::Disconnected);
    assert_eq!(machine.start(), Action::Scan(new_scan()));
}

#[test]
fn events_out_of_turn_change_nothing() {
    let mut machine = AerodisSpaceGamepad::new(GamepadType::XboxOne);
    for event in [
        Event::Subscribed,
        Event::LinkSecured,
        Event::LinkEstablished,
        Event::ScanTimedOut,
        Event::ScanFailed,
        Event::ConnectFailed,
        Event::SecureLinkFailed,
        Event::GattUnresolved,
        Event::PreferredParams(Some(vec![0; 8])),
        Event::LinkLost,
        seen("Xbox Wireless Controller", 9),
    ] {
        assert_eq!(machine.handle(&event), Action::Wait);
        assert_eq!(machine.state, ConnectionState::Idle);
    }
    machine.start();
    machine.handle(&seen("Xbox Wireless Controller", 2));
    machine.handle(&Event::LinkEstablished);
    // The subscription cannot come before the pairing.
    assert_eq!(machine.handle(&Event::Subscribed), Action::Wait);
    assert_eq!(machine.handle(&Event::GattUnresolved), Action::Wait);
    assert_eq!(machine.handle(&Event::PreferredParams(None)), Action::Wait);
    assert_eq!(
        machine.state,
        ConnectionState::Pairing { address: address(2), phase: PairingPhase::Securing }
    );
    assert_eq!(machine.start(), Action::Wait);
    machine.handle(&Event::LinkSecured);
    assert_eq!(machine.handle(&Event::LinkSecured), Action::Wait);
    assert_eq!(machine.handle(&Event::SecureLinkFailed), Action::Wait);
    assert_eq!(machine.handle(&Event::Subscribed), Action::Wait);
    assert_eq!(
        machine.state,
        ConnectionState::Pairing { address: address(2), phase: PairingPhase::ReadingParams }
    );
}

#[test]
fn passkey_policy() {
    assert_eq!(PASSKEY, 1234);
    assert_eq!(passkey_on_request(), 1234);
    assert!(confirm_pin(1234));
    assert!(!confirm_pin(1235));
    assert!(!confirm_pin(0));
    assert!(!confirm_pin(123456));
}

#[test]
fn scan_parameters() {
    assert_eq!(SCAN_INTERVAL_MS, 150);
    assert_eq!(SCAN_WINDOW_MS, 150);
    assert_eq!(SCAN_TIMEOUT_MS, 10000);
    assert_eq!(
        new_scan(),
        ScanParams { active: true, interval_ms: 150, window_ms: 150, timeout_ms: 10000 }
    );
    let mut machine = AerodisSpaceGamepad::new(GamepadType::XboxOne);
    assert_eq!(machine.start(), Action::Scan(new_scan()));
}

#[test]
fn machine_hands_out_the_family_decoder() {
    let machine = ready();
    assert_eq!(machine.get_gamepad_packet(), GamepadHandler::XboxOne(GamepadXboxOne::new()));
}
