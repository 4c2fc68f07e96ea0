use esperto::config::{Action, Combo, Config as EspertoCfg, ModifierDecl};
use esperto_wiimote::codes;
use esperto_wiimote::combo::{Router, SlotEvent};
use esperto_wiimote::config::{OutputCodes, OutputEvent, ScreenLimits, Slot, Slots, WiimoteConfig, WiimoteEvent};
use esperto_wiimote::output::DeviceEvent;
use esperto_wiimote::routing::Kind;
use std::collections::HashSet;

fn action(key: WiimoteEvent, out: Option<OutputEvent>) -> Action<WiimoteEvent, OutputEvent> {
    Action { key, action: out, immediate: false, modified: vec![], latching: false }
}

fn out(slot: Slot, code: OutputCodes) -> OutputEvent {
    OutputEvent { slot, code }
}

fn config() -> WiimoteConfig {
    let mut keys = HashSet::new();
    keys.insert(WiimoteEvent::B);
    let mut a = action(WiimoteEvent::A, Some(out(Slot::Slot2, OutputCodes::Key(57))));
    a.modified = vec![Combo { modifier: "pointer".to_string(), action: Some(out(Slot::Slot1, OutputCodes::CustomKey(0x110))) }];
    let mut x = action(WiimoteEvent::IRAbsX, None);
    x.modified = vec![Combo { modifier: "pointer".to_string(), action: Some(out(Slot::Slot1, OutputCodes::Axis(0))) }];
    WiimoteConfig {
        grab: false,
        slots: Slots::default(),
        screen_limits: ScreenLimits::default(),
        centering: vec![(OutputCodes::Axis(0), 2048)],
        parking: vec![(OutputCodes::Axis(0), 4095)],
        on_connect: None,
        on_disconnect: None,
        esperto: EspertoCfg {
            modifiers: vec![ModifierDecl { id: "pointer".to_string(), keys, masking: false }],
            actions: vec![a, x, action(WiimoteEvent::Up, Some(out(Slot::Slot2, OutputCodes::Key(103))))],
        },
    }
}

fn key(slot: usize, code: u16, value: i32) -> SlotEvent {
    SlotEvent { slot, event: DeviceEvent { event_type: codes::EV_KEY, code, value } }
}

fn abs(slot: usize, code: u16, value: i32) -> SlotEvent {
    SlotEvent { slot, event: DeviceEvent { event_type: codes::EV_ABS, code, value } }
}

#[test]
fn plain_key_action() {
    let mut r = Router::new(&config());
    assert_eq!(r.route_key(codes::BTN_DPAD_UP, Kind::Down), vec![key(1, 103, 1)]);
    assert_eq!(r.route_key(codes::BTN_DPAD_UP, Kind::Up), vec![key(1, 103, 0)]);
    assert_eq!(r.route_key(codes::BTN_SOUTH, Kind::Down), vec![key(1, 57, 1)]);
    assert_eq!(r.route_key(codes::BTN_SOUTH, Kind::Up), vec![key(1, 57, 0)]);
}

#[test]
fn unmapped_inputs_produce_nothing() {
    let mut r = Router::new(&config());
    assert!(r.route_key(codes::BTN_1, Kind::Down).is_empty());
    assert!(r.route_input(WiimoteEvent::IRAbsY, Kind::AxisUpdate, 7).is_empty());
}

#[test]
fn combo_with_modifier() {
    let mut r = Router::new(&config());
    let down = r.route_key(codes::BTN_EAST, Kind::Down);
    let a = r.route_key(codes::BTN_SOUTH, Kind::Down);
    assert_eq!(a, vec![key(0, 0x110, 1)]);
    let a_up = r.route_key(codes::BTN_SOUTH, Kind::Up);
    assert_eq!(a_up, vec![key(0, 0x110, 0)]);
    let up = r.route_key(codes::BTN_EAST, Kind::Up);
    // a modifier alone produces nothing
    assert!(down.is_empty());
    assert!(up.is_empty());
}

#[test]
fn pointer_axis_engages_with_modifier() {
    let mut r = Router::new(&config());
    assert!(r.route_input(WiimoteEvent::IRAbsX, Kind::AxisUpdate, 100).is_empty());
    let engage = r.route_key(codes::BTN_EAST, Kind::Down);
    let update = r.route_input(WiimoteEvent::IRAbsX, Kind::AxisUpdate, 200);
    let release = r.route_key(codes::BTN_EAST, Kind::Up);
    assert!(engage.is_empty());
    // the axis engages (centering value), then takes the update
    assert_eq!(update, vec![abs(0, 0, 2048), abs(0, 0, 200)]);
    // releasing the modifier disengages the axis (parking value)
    assert_eq!(release, vec![abs(0, 0, 4095)]);
    assert!(r.route_input(WiimoteEvent::IRAbsX, Kind::AxisUpdate, 300).is_empty());
}

#[test]
fn repeated_presses_and_releases_reach_the_engine() {
    let mut r = Router::new(&config());
    // a release of a button that was never pressed finds its action closed
    assert!(r.route_key(codes::BTN_DPAD_UP, Kind::Up).is_empty());
    assert_eq!(r.route_key(codes::BTN_DPAD_UP, Kind::Down), vec![key(1, 103, 1)]);
    // a second press of a held button presses its action again
    assert_eq!(r.route_key(codes::BTN_DPAD_UP, Kind::Down), vec![key(1, 103, 1)]);
    assert_eq!(r.route_key(codes::BTN_DPAD_UP, Kind::Up), vec![key(1, 103, 0)]);
    // the action stays open, so a second release releases it again
    assert_eq!(r.route_key(codes::BTN_DPAD_UP, Kind::Up), vec![key(1, 103, 0)]);
}

#[test]
fn release_of_idle_modifier_is_refused() {
    let mut r = Router::new(&config());
    assert!(!r.can_route(WiimoteEvent::B, Kind::Up));
    assert!(r.try_route_key(codes::BTN_EAST, Kind::Up).is_none());
    assert!(r.can_route(WiimoteEvent::B, Kind::Down));
    assert!(r.try_route_key(codes::BTN_EAST, Kind::Down).is_some());
    assert!(r.can_route(WiimoteEvent::B, Kind::Up));
    assert!(r.try_route_key(codes::BTN_EAST, Kind::Up).is_some());
    assert!(!r.can_route(WiimoteEvent::B, Kind::Up));
    // a button outside every modifier group can always be released
    assert!(r.can_route(WiimoteEvent::Up, Kind::Up));
    assert_eq!(r.try_route_key(codes::BTN_DPAD_UP, Kind::Up), Some(vec![]));
}

#[test]
fn router_refuses_undefined_modifier() {
    let mut cfg = config();
    cfg.esperto.modifiers.clear();
    assert!(Router::from_config(&cfg).is_none());
    assert!(Router::from_config(&config()).is_some());
}
