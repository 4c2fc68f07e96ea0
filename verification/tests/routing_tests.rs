use esperto_wiimote::codes;
use esperto_wiimote::routing::{axis_report, key_report, EventSync, Kind, Raw, SyncAccelEvents, SyncIrEvents, SyncOutcome};
use esperto_wiimote::track::RawDot;

#[test]
fn key_reports_become_presses_and_releases() {
    assert_eq!(key_report(codes::EV_KEY, 0x130, 1), Some(Raw::Key(0x130, Kind::Down)));
    assert_eq!(key_report(codes::EV_KEY, 0x130, 0), Some(Raw::Key(0x130, Kind::Up)));
    assert_eq!(key_report(codes::EV_KEY, 0x130, 2), Some(Raw::Key(0x130, Kind::Up)));
    assert_eq!(key_report(codes::EV_SYN, 0, 0), None);
    assert_eq!(key_report(codes::EV_ABS, 0, 5), None);
}

#[test]
fn axis_reports_keep_code_and_value() {
    assert_eq!(axis_report(codes::EV_SYN, 0, 0, Raw::IRSyn), Some(Raw::IRSyn));
    assert_eq!(axis_report(codes::EV_SYN, 0, 0, Raw::AccelSyn), Some(Raw::AccelSyn));
    assert_eq!(axis_report(codes::EV_ABS, codes::ABS_HAT1Y, 300, Raw::IRSyn), Some(Raw::Abs(0x13, 300)));
    assert_eq!(axis_report(codes::EV_KEY, 0x130, 1, Raw::IRSyn), None);
    assert_eq!(axis_report(4, 0, 0, Raw::IRSyn), None);
}

#[test]
fn accel_events_are_recognised() {
    assert!(Raw::AccelSyn.is_accel());
    assert!(Raw::Abs(codes::ABS_X, 1).is_accel());
    assert!(Raw::Abs(codes::ABS_Z, 1).is_accel());
    assert!(!Raw::Abs(codes::ABS_HAT0X, 1).is_accel());
    assert!(!Raw::IRSyn.is_accel());
    assert!(!Raw::Key(0x130, Kind::Down).is_accel());
}

#[test]
fn ir_frame_collects_dot_coordinates() {
    let mut s = SyncIrEvents::new();
    for d in s.dots.iter() {
        assert!(!d.is_valid());
    }
    assert!(!s.sync_event(Raw::Abs(codes::ABS_HAT0X, 100)));
    assert!(!s.sync_event(Raw::Abs(codes::ABS_HAT0Y, 200)));
    assert!(!s.sync_event(Raw::Abs(codes::ABS_HAT3Y, 7)));
    assert!(!s.sync_event(Raw::Abs(codes::ABS_X, 55)));
    assert!(!s.sync_event(Raw::Key(0x130, Kind::Down)));
    assert!(!s.sync_event(Raw::AccelSyn));
    assert!(s.sync_event(Raw::IRSyn));
    assert_eq!(s.dots[0], RawDot { x: 100, y: 200 });
    assert_eq!(s.dots[1], RawDot { x: 1023, y: 1023 });
    assert_eq!(s.dots[3], RawDot { x: 1023, y: 7 });
}

#[test]
fn accel_sample_uses_last_values() {
    let mut s = SyncAccelEvents::new();
    assert_eq!(s.sync_event(Raw::AccelSyn), Some((0, 0, 0)));
    assert_eq!(s.sync_event(Raw::Abs(codes::ABS_X, 10)), None);
    assert_eq!(s.sync_event(Raw::Abs(codes::ABS_Y, -3)), None);
    assert_eq!(s.sync_event(Raw::Abs(codes::ABS_X, 11)), None);
    assert_eq!(s.sync_event(Raw::Abs(codes::ABS_HAT0X, 99)), None);
    assert_eq!(s.sync_event(Raw::IRSyn), None);
    assert_eq!(s.sync_event(Raw::AccelSyn), Some((11, -3, 0)));
    assert_eq!(s.sync_event(Raw::Abs(codes::ABS_Z, 98)), None);
    assert_eq!(s.sync_event(Raw::AccelSyn), Some((11, -3, 98)));
}

#[test]
fn event_sync_routes_by_device() {
    let mut s = EventSync::new();
    assert!(matches!(s.sync_event(Raw::Abs(codes::ABS_X, 4)), SyncOutcome::Pending));
    assert!(matches!(s.sync_event(Raw::Abs(codes::ABS_HAT2X, 500)), SyncOutcome::Pending));
    match s.sync_event(Raw::AccelSyn) {
        SyncOutcome::Accel(x, y, z) => assert_eq!((x, y, z), (4, 0, 0)),
        _ => panic!("expected a sample"),
    }
    match s.sync_event(Raw::IRSyn) {
        SyncOutcome::Frame(dots) => {
            assert_eq!(dots[2], RawDot { x: 500, y: 1023 });
            assert!(!dots[0].is_valid());
        },
        _ => panic!("expected a frame"),
    }
    assert!(matches!(s.sync_event(Raw::Key(0x130, Kind::Down)), SyncOutcome::Pending));
}
