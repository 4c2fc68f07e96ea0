use esperto_wiimote::codes;
use esperto_wiimote::config::OutputCodes;
use esperto_wiimote::output::{translate_output, AxisTable, DeviceEvent};
use esperto_wiimote::routing::Kind;

fn ev(t: u16, c: u16, v: i32) -> Option<DeviceEvent> {
    Some(DeviceEvent { event_type: t, code: c, value: v })
}

#[test]
fn axis_table_keeps_last_entry() {
    let t = AxisTable::new(&vec![
        (OutputCodes::Axis(0), 2048),
        (OutputCodes::CustomAxis(1), 100),
        (OutputCodes::CustomAxis(0), 7),
    ]);
    assert_eq!(t.get(0), Some(7));
    assert_eq!(t.get(1), Some(100));
    assert_eq!(t.get(2), None);
    let empty = AxisTable::new(&vec![]);
    assert_eq!(empty.get(0), None);
}

#[test]
fn keys_press_and_release() {
    let c = AxisTable::new(&vec![]);
    let p = AxisTable::new(&vec![]);
    assert_eq!(translate_output(OutputCodes::Key(57), Kind::Down, 0, &c, &p), ev(codes::EV_KEY, 57, 1));
    assert_eq!(translate_output(OutputCodes::Key(57), Kind::Up, 0, &c, &p), ev(codes::EV_KEY, 57, 0));
    assert_eq!(translate_output(OutputCodes::CustomKey(0x110), Kind::Down, 9, &c, &p), ev(codes::EV_KEY, 0x110, 1));
    assert_eq!(translate_output(OutputCodes::CustomKey(0x110), Kind::AxisUpdate, 9, &c, &p), ev(codes::EV_KEY, 0x110, 0));
}

#[test]
fn axes_update_center_and_park() {
    let c = AxisTable::new(&vec![(OutputCodes::Axis(0), 2048)]);
    let p = AxisTable::new(&vec![(OutputCodes::CustomAxis(1), 4095)]);
    assert_eq!(translate_output(OutputCodes::Axis(0), Kind::AxisUpdate, 1234, &c, &p), ev(codes::EV_ABS, 0, 1234));
    assert_eq!(translate_output(OutputCodes::Axis(0), Kind::AxisEngage, 1234, &c, &p), ev(codes::EV_ABS, 0, 2048));
    assert_eq!(translate_output(OutputCodes::Axis(0), Kind::AxisDisengage, 1234, &c, &p), None);
    assert_eq!(translate_output(OutputCodes::CustomAxis(1), Kind::AxisDisengage, 0, &c, &p), ev(codes::EV_ABS, 1, 4095));
    assert_eq!(translate_output(OutputCodes::CustomAxis(1), Kind::AxisEngage, 0, &c, &p), None);
    assert_eq!(translate_output(OutputCodes::Axis(0), Kind::Down, 0, &c, &p), None);
    assert_eq!(translate_output(OutputCodes::CustomAxis(1), Kind::Up, 0, &c, &p), None);
}
