use esperto_wiimote::calibration::{calibration_order, Position};
use esperto_wiimote::events::WiimoteEvents;
use esperto_wiimote::session::ConnectionCounter;
use esperto_wiimote::text::push_decimal;

#[test]
fn connection_hooks_run_on_first_and_last() {
    let mut c = ConnectionCounter::new();
    assert!(!c.any_connected());
    assert!(c.connect());
    assert!(!c.connect());
    assert_eq!(c.count(), 2);
    assert!(!c.disconnect());
    assert!(c.any_connected());
    assert!(c.disconnect());
    assert!(!c.any_connected());
    assert!(c.connect());
}

#[test]
fn calibration_positions() {
    assert_eq!(Position::PosX.index(), 0);
    assert_eq!(Position::NegX.index(), 1);
    assert_eq!(Position::PosY.index(), 2);
    assert_eq!(Position::NegY.index(), 3);
    assert_eq!(Position::PosZ.index(), 4);
    assert_eq!(Position::NegZ.index(), 5);
    assert_eq!(
        calibration_order(),
        vec![Position::PosZ, Position::NegZ, Position::PosX, Position::NegX, Position::PosY, Position::NegY]
    );
}

#[test]
fn decimal_rendering() {
    let mut s = String::from("n=");
    push_decimal(&mut s, 0);
    assert_eq!(s, "n=0");
    let mut t = String::new();
    push_decimal(&mut t, 4095);
    assert_eq!(t, "4095");
    let mut u = String::new();
    push_decimal(&mut u, 10);
    assert_eq!(u, "10");
}

#[test]
fn wiimote_events_order() {
    assert!(WiimoteEvents::A < WiimoteEvents::IRAbsY);
    assert_ne!(WiimoteEvents::Btn1, WiimoteEvents::Btn2);
}
