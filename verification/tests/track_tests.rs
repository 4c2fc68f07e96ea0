use esperto_wiimote::track::{partition_visible, track_transition, try_single_adjust, FilterAction, GlitchFilter, IRState, RawDot};

fn hidden() -> RawDot {
    RawDot::default()
}

#[test]
fn raw_dot_visibility() {
    assert!(!RawDot::default().is_valid());
    assert!(RawDot { x: 1023, y: 5 }.is_valid());
    assert!(RawDot { x: 0, y: 1023 }.is_valid());
    assert!(RawDot { x: 512, y: 384 }.is_valid());
}

#[test]
fn visible_dots_move_to_front() {
    let a = RawDot { x: 1, y: 2 };
    let b = RawDot { x: 3, y: 4 };
    let mut dots = [hidden(), a, hidden(), b];
    let n = partition_visible(&mut dots);
    assert_eq!(n, 2);
    assert!(dots[0].is_valid() && dots[1].is_valid());
    assert!(!dots[2].is_valid() && !dots[3].is_valid());
    assert_eq!(dots, [b, a, hidden(), hidden()]);

    let mut none = [hidden(); 4];
    assert_eq!(partition_visible(&mut none), 0);
    let mut all = [a, b, a, b];
    assert_eq!(partition_visible(&mut all), 4);
    assert_eq!(all, [a, b, a, b]);
    let mut one = [hidden(), hidden(), hidden(), a];
    assert_eq!(partition_visible(&mut one), 1);
    assert_eq!(one[0], a);
}

#[test]
fn tracking_states() {
    assert_eq!(track_transition(IRState::DEAD, 0, false), (IRState::DEAD, false));
    assert_eq!(track_transition(IRState::GOOD, 0, false), (IRState::LOST, false));
    assert_eq!(track_transition(IRState::SINGLE, 0, true), (IRState::LOST, false));
    assert_eq!(track_transition(IRState::DEAD, 2, true), (IRState::GOOD, true));
    assert_eq!(track_transition(IRState::DEAD, 1, false), (IRState::DEAD, false));
    assert_eq!(track_transition(IRState::LOST, 1, false), (IRState::SINGLE, true));
    assert_eq!(track_transition(IRState::GOOD, 3, false), (IRState::SINGLE, true));
    assert_eq!(IRState::default(), IRState::DEAD);
}

#[test]
fn single_dot_adjustment() {
    assert!(try_single_adjust(IRState::GOOD, false));
    assert!(try_single_adjust(IRState::SINGLE, false));
    assert!(!try_single_adjust(IRState::LOST, false));
    assert!(try_single_adjust(IRState::LOST, true));
}

#[test]
fn glitch_filter_sequence() {
    let mut f = GlitchFilter::new();
    assert!(!f.has_pointer());
    assert!(!f.following());
    assert_eq!(f.step(false, false), FilterAction::Clear);
    assert_eq!(f.step(true, false), FilterAction::Snap);
    assert!(f.has_pointer());
    assert!(f.following());
    assert_eq!(f.step(true, true), FilterAction::Smooth);
    // far jumps are ignored up to the glitch limit, then followed
    for _ in 0..6 {
        assert_eq!(f.step(true, false), FilterAction::Ignore);
    }
    assert_eq!(f.step(true, false), FilterAction::Smooth);
    assert_eq!(f.step(true, false), FilterAction::Ignore);
    // one frame without a bar keeps the pointer, the second drops it
    assert_eq!(f.step(false, false), FilterAction::Keep);
    assert!(f.has_pointer());
    assert!(!f.following());
    assert_eq!(f.step(false, false), FilterAction::Clear);
    assert!(!f.has_pointer());
    assert_eq!(f.step(true, false), FilterAction::Snap);
}
