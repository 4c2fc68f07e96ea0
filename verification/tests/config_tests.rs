use esperto::config::{Action, Combo, Config as EspertoCfg, ModifierDecl};
use esperto_wiimote::actions::ConfigError;
use esperto_wiimote::codes;
use esperto_wiimote::config::{
    default_slot_info, is_wiimote_key, wiimote_key_codes, OutputCodes, OutputEvent, Parking, ScreenLimits, Slot,
    SlotInfo, Slots, WiimoteConfig, WiimoteEvent,
};
use std::collections::HashSet;

fn action(key: WiimoteEvent, out: Option<OutputEvent>) -> Action<WiimoteEvent, OutputEvent> {
    Action { key, action: out, immediate: false, modified: vec![], latching: false }
}

fn out(slot: Slot, code: OutputCodes) -> OutputEvent {
    OutputEvent { slot, code }
}

fn config(esperto: EspertoCfg<WiimoteEvent, OutputEvent>) -> WiimoteConfig {
    WiimoteConfig {
        grab: false,
        slots: Slots::default(),
        screen_limits: ScreenLimits::default(),
        centering: vec![],
        parking: vec![],
        on_connect: None,
        on_disconnect: None,
        esperto,
    }
}

#[test]
fn default_slot_names() {
    let s0 = default_slot_info::<0>();
    assert_eq!(s0.name, "Esperto Wiimote 0");
    assert!(!s0.repeating);
    let s1 = default_slot_info::<1>();
    assert_eq!(s1.name, "Esperto Wiimote 1");
    assert!(s1.repeating);
    let s12 = default_slot_info::<12>();
    assert_eq!(s12.name, "Esperto Wiimote 12");
    assert!(!s12.repeating);
    let d = SlotInfo::default();
    assert_eq!(d.name, "Esperto Wiimote 0");
    assert!(!d.repeating);
}

#[test]
fn default_slots_and_index() {
    let slots = Slots::default();
    assert_eq!(slots.index(0).name, "Esperto Wiimote 1");
    assert!(slots.index(0).repeating);
    assert_eq!(slots.index(1).name, "Esperto Wiimote 2");
    assert_eq!(slots.index(2).name, "Esperto Wiimote 3");
    assert_eq!(slots.index(3).name, "Esperto Wiimote 4");
    assert!(!slots.index(3).repeating);
}

#[test]
fn wiimote_event_kinds() {
    assert!(WiimoteEvent::IRAbsX.is_axis());
    assert!(WiimoteEvent::IRAbsY.is_axis());
    assert!(!WiimoteEvent::A.is_axis());
    assert!(WiimoteEvent::Home.is_key());
    assert!(!WiimoteEvent::IRAbsY.is_key());
}

#[test]
fn key_codes_map_to_buttons() {
    assert_eq!(WiimoteEvent::from_key_code(0x130), WiimoteEvent::A);
    assert_eq!(WiimoteEvent::from_key_code(0x131), WiimoteEvent::B);
    assert_eq!(WiimoteEvent::from_key_code(0x220), WiimoteEvent::Up);
    assert_eq!(WiimoteEvent::from_key_code(0x221), WiimoteEvent::Down);
    assert_eq!(WiimoteEvent::from_key_code(0x222), WiimoteEvent::Left);
    assert_eq!(WiimoteEvent::from_key_code(0x223), WiimoteEvent::Right);
    assert_eq!(WiimoteEvent::from_key_code(0x13b), WiimoteEvent::Plus);
    assert_eq!(WiimoteEvent::from_key_code(0x13a), WiimoteEvent::Minus);
    assert_eq!(WiimoteEvent::from_key_code(0x13c), WiimoteEvent::Home);
    assert_eq!(WiimoteEvent::from_key_code(0x101), WiimoteEvent::Btn1);
    assert_eq!(WiimoteEvent::from_key_code(0x102), WiimoteEvent::Btn2);
    assert!(is_wiimote_key(0x130));
    assert!(!is_wiimote_key(57));
    assert!(!is_wiimote_key(0x100));
}

#[test]
fn key_mask_matches_mapping() {
    let codes = wiimote_key_codes();
    assert_eq!(codes.len(), 11);
    for c in &codes {
        assert!(is_wiimote_key(*c));
    }
    assert_eq!(codes[0], codes::BTN_SOUTH);
    assert_eq!(codes[10], codes::BTN_2);
}

#[test]
fn output_codes_kinds_and_raw() {
    assert!(OutputCodes::Key(57).is_key());
    assert!(OutputCodes::CustomKey(0x110).is_key());
    assert!(OutputCodes::Axis(0).is_axis());
    assert!(OutputCodes::CustomAxis(1).is_axis());
    assert_eq!(OutputCodes::Key(57).get_raw(), 57);
    assert_eq!(OutputCodes::CustomKey(0x110).get_raw(), 0x110);
    assert_eq!(OutputCodes::Axis(3).get_raw(), 3);
    assert_eq!(OutputCodes::CustomAxis(7).get_raw(), 7);
}

#[test]
fn slot_indices() {
    assert_eq!(Slot::Slot1.to_index(), 0);
    assert_eq!(Slot::Slot2.to_index(), 1);
    assert_eq!(Slot::Slot3.to_index(), 2);
    assert_eq!(Slot::Slot4.to_index(), 3);
    assert_eq!(Slot::default(), Slot::Slot1);
}

#[test]
fn screen_defaults_and_clamp() {
    let l = ScreenLimits::default();
    assert_eq!((l.north, l.south, l.west, l.east), (0, 4095, 0, 4095));
    assert_eq!(ScreenLimits::clamp_axis(-5), 0);
    assert_eq!(ScreenLimits::clamp_axis(5000), 4095);
    assert_eq!(ScreenLimits::clamp_axis(2048), 2048);
    assert_eq!(ScreenLimits::clamp_axis(4095), 4095);
    let p = Parking::default();
    assert_eq!((p.x, p.y), (4095, 4095));
}

#[test]
fn validate_accepts_matching_actions() {
    let cfg = config(EspertoCfg {
        modifiers: vec![],
        actions: vec![
            action(WiimoteEvent::A, Some(out(Slot::Slot2, OutputCodes::Key(57)))),
            action(WiimoteEvent::IRAbsX, Some(out(Slot::Slot1, OutputCodes::Axis(0)))),
            action(WiimoteEvent::B, None),
        ],
    });
    let warnings = cfg.validate().unwrap();
    assert!(warnings.is_empty());
}

#[test]
fn validate_reports_esperto_warnings() {
    let mut a = action(WiimoteEvent::A, Some(out(Slot::Slot2, OutputCodes::Key(57))));
    a.immediate = true;
    let cfg = config(EspertoCfg { modifiers: vec![], actions: vec![a] });
    let warnings = cfg.validate().unwrap();
    assert_eq!(warnings.len(), 1);
    assert!(warnings[0].contains("immediate"));
}

#[test]
fn validate_rejects_esperto_errors() {
    let cfg = config(EspertoCfg {
        modifiers: vec![],
        actions: vec![action(WiimoteEvent::A, None), action(WiimoteEvent::A, None)],
    });
    match cfg.validate() {
        Err(ConfigError::Esperto(msg)) => assert!(msg.contains("duplicate action")),
        other => panic!("unexpected {:?}", other),
    }
}

#[test]
fn validate_rejects_axis_to_key() {
    let cfg = config(EspertoCfg {
        modifiers: vec![],
        actions: vec![
            action(WiimoteEvent::IRAbsX, Some(out(Slot::Slot1, OutputCodes::Key(57)))),
            action(WiimoteEvent::A, Some(out(Slot::Slot1, OutputCodes::Axis(0)))),
        ],
    });
    match cfg.validate() {
        Err(ConfigError::AxisToKey(i, o)) => {
            assert_eq!(i, WiimoteEvent::IRAbsX);
            assert_eq!(o, out(Slot::Slot1, OutputCodes::Key(57)));
        },
        other => panic!("unexpected {:?}", other),
    }
}

#[test]
fn validate_rejects_key_to_axis_in_combo() {
    let mut keys = HashSet::new();
    keys.insert(WiimoteEvent::B);
    let mut a = action(WiimoteEvent::A, Some(out(Slot::Slot2, OutputCodes::Key(57))));
    a.modified = vec![Combo { modifier: "pointer".to_string(), action: Some(out(Slot::Slot1, OutputCodes::CustomAxis(1))) }];
    let cfg = config(EspertoCfg {
        modifiers: vec![ModifierDecl { id: "pointer".to_string(), keys, masking: false }],
        actions: vec![a],
    });
    match cfg.validate() {
        Err(ConfigError::KeyToAxis(i, o)) => {
            assert_eq!(i, WiimoteEvent::A);
            assert_eq!(o, out(Slot::Slot1, OutputCodes::CustomAxis(1)));
        },
        other => panic!("unexpected {:?}", other),
    }
}

#[test]
fn capabilities_per_slot() {
    let mut keys = HashSet::new();
    keys.insert(WiimoteEvent::B);
    let mut a = action(WiimoteEvent::A, Some(out(Slot::Slot2, OutputCodes::Key(57))));
    a.modified = vec![Combo { modifier: "pointer".to_string(), action: Some(out(Slot::Slot1, OutputCodes::CustomKey(0x110))) }];
    let cfg = config(EspertoCfg {
        modifiers: vec![ModifierDecl { id: "pointer".to_string(), keys, masking: false }],
        actions: vec![
            a,
            action(WiimoteEvent::Up, Some(out(Slot::Slot2, OutputCodes::Key(57)))),
            action(WiimoteEvent::IRAbsX, Some(out(Slot::Slot1, OutputCodes::Axis(0)))),
            action(WiimoteEvent::IRAbsY, Some(out(Slot::Slot1, OutputCodes::Axis(1)))),
            action(WiimoteEvent::Down, None),
        ],
    });
    let caps = cfg.device_capabilities();
    assert_eq!(caps.len(), 4);
    assert_eq!(caps[0].keys, vec![0x110]);
    assert_eq!(caps[0].axes, vec![0, 1]);
    assert_eq!(caps[1].keys, vec![57]);
    assert!(caps[1].axes.is_empty());
    assert!(caps[2].keys.is_empty() && caps[2].axes.is_empty());
    assert!(caps[3].keys.is_empty() && caps[3].axes.is_empty());
}
