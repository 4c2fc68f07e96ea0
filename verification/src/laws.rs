//! Properties of the library that relate several of its functions.
use vstd::prelude::*;
use crate::codes;
use crate::config::{is_axis_event, key_code_of, key_event_of, slot_index, Slot, WiimoteEvent};
use crate::matcher::{is_complete, with_device, DeviceRole, Found};
use crate::output::{last_entry_wins, output_event, raw_entries, table_event, DeviceEvent};
use crate::combo::{routed_events, SlotEvent};
use crate::config::{raw_code, OutputCodes, OutputEvent};
use crate::routing::Kind;
use crate::routing::{dots_after, hat_target, is_accel_event, Raw};
use crate::combo::input_code_of;
use crate::actions::is_mismatched;
use crate::config::is_key_code;
use crate::track::{filter_action, track_step, FilterAction, IRState, RawDot, ERROR_MAX_COUNT, GLITCH_MAX_COUNT};

verus! {

/// A button's kernel key code maps back to the button, and every key code
/// that maps to a button is that button's code.
pub proof fn lemma_key_code_round_trip(e: WiimoteEvent, code: u16)
    ensures
        key_code_of(e) == Some(code) ==> key_event_of(code) == Some(e),
        key_event_of(code) == Some(e) ==> key_code_of(e) == Some(code),
{
}

/// The remote's inputs are either axes or buttons with a key code.
pub proof fn lemma_axes_have_no_key_code(e: WiimoteEvent)
    ensures
        is_axis_event(e) <==> key_code_of(e) is None,
{
}

/// Distinct output slots have distinct device indices.
pub proof fn lemma_slot_index_injective(a: Slot, b: Slot)
    ensures
        slot_index(a) == slot_index(b) ==> a == b,
        slot_index(a) < 4,
{
}

/// A remote's devices are handed out once its buttons, IR camera and
/// accelerometer have each been found, in any order, and not before.
pub proof fn lemma_three_roles_complete<D>(r1: DeviceRole, r2: DeviceRole, r3: DeviceRole, d1: D, d2: D, d3: D)
    requires
        r1 != r2 && r2 != r3 && r1 != r3,
    ensures
        !is_complete(with_device((None, None, None), r1, d1)),
        !is_complete(with_device(with_device((None, None, None), r1, d1), r2, d2)),
        is_complete(with_device(with_device(with_device((None, None, None), r1, d1), r2, d2), r3, d3)),
{
}

/// A device found again in the same role replaces the earlier one and
/// completes nothing new.
pub proof fn lemma_role_replaces<D>(f: Found<D>, role: DeviceRole, d1: D, d2: D)
    ensures
        with_device(with_device(f, role, d1), role, d2) == with_device(f, role, d2),
{
}

/// An IR report for one coordinate of one dot sets that coordinate and
/// leaves everything else as it was; other axis reports change nothing.
pub proof fn lemma_ir_report(dots: Seq<RawDot>, dot: int, is_y: bool, value: i32)
    requires
        dots.len() == 4,
        0 <= dot < 4,
    ensures
        ({
            let code = (codes::ABS_HAT0X + 2 * dot + if is_y { 1int } else { 0int }) as u16;
            let after = dots_after(dots, code, value);
            &&& after.len() == 4
            &&& (if is_y { after[dot].y == value && after[dot].x == dots[dot].x }
                 else { after[dot].x == value && after[dot].y == dots[dot].y })
            &&& forall|j: int| 0 <= j < 4 && j != dot ==> after[j] == dots[j]
        }),
{
    let code = (codes::ABS_HAT0X + 2 * dot + if is_y { 1int } else { 0int }) as u16;
    assert(hat_target(code) == Some((dot, is_y)));
}

/// Axis codes outside the camera's eight dot coordinates leave the frame as it was.
pub proof fn lemma_other_axes_ignored(dots: Seq<RawDot>, code: u16, value: i32)
    requires
        code < codes::ABS_HAT0X || code > codes::ABS_HAT3Y,
    ensures
        dots_after(dots, code, value) == dots,
{
}

/// Of several entries for one axis code, the table keeps the last one; a
/// code without entry has no value.
pub proof fn lemma_last_entry_wins(entries: Seq<(u16, i32)>, code: u16)
    ensures
        (exists|i: int| 0 <= i < entries.len() && #[trigger] entries[i].0 == code)
            <==> last_entry_wins(entries).dom().contains(code),
        forall|i: int| 0 <= i < entries.len() && entries[i].0 == code
            && (forall|j: int| i < j < entries.len() ==> #[trigger] entries[j].0 != code)
            ==> last_entry_wins(entries)[code] == #[trigger] entries[i].1,
    decreases entries.len(),
{
    if entries.len() > 0 {
        let d = entries.drop_last();
        lemma_last_entry_wins(d, code);
        if exists|i: int| 0 <= i < entries.len() && #[trigger] entries[i].0 == code {
            let i = choose|i: int| 0 <= i < entries.len() && #[trigger] entries[i].0 == code;
            if i < entries.len() - 1 {
                assert(d[i].0 == code);
            }
        }
        if last_entry_wins(d).dom().contains(code) {
            let i = choose|i: int| 0 <= i < d.len() && #[trigger] d[i].0 == code;
            assert(entries[i].0 == code);
        }
        assert forall|i: int| 0 <= i < entries.len() && entries[i].0 == code
            && (forall|j: int| i < j < entries.len() ==> #[trigger] entries[j].0 != code)
            implies last_entry_wins(entries)[code] == #[trigger] entries[i].1 by {
            if i < entries.len() - 1 {
                assert(entries[entries.len() - 1].0 != code);
                assert(d[i] == entries[i]);
                assert forall|j: int| i < j < d.len() implies #[trigger] d[j].0 != code by {
                    assert(d[j] == entries[j]);
                }
            }
        }
    }
}

/// The tracker leaves DEAD only through a pair of dots that passes the
/// sensor bar checks, and never returns to DEAD.
pub proof fn lemma_dead_until_pair(state: IRState, visible: nat, pair_found: bool)
    ensures
        track_step(state, visible, pair_found).0 == IRState::DEAD ==> state == IRState::DEAD,
        state == IRState::DEAD && track_step(state, visible, pair_found).0 != IRState::DEAD ==> pair_found && visible > 0,
        track_step(state, visible, pair_found).0 == IRState::GOOD <==> (visible > 0 && pair_found),
        track_step(state, visible, pair_found).1 ==> visible > 0,
{
}

/// After a frame with a sensor bar, the pointer survives one frame without
/// a bar and is dropped at the second.
pub proof fn lemma_pointer_survives_one_missing_frame(glitches: nat, near: bool)
    ensures
        filter_action(ERROR_MAX_COUNT as nat, glitches, false, near) == FilterAction::Keep,
        filter_action((ERROR_MAX_COUNT - 1) as nat, glitches, false, near) == FilterAction::Clear,
{
}

/// While the pointer is followed, a far jump is ignored at most
/// `GLITCH_MAX_COUNT + 1` times in a row; then the pointer follows it.
pub proof fn lemma_glitches_are_bounded(errors_left: nat, near: bool)
    requires
        errors_left > 0,
    ensures
        filter_action(errors_left, (GLITCH_MAX_COUNT + 1) as nat, true, near) == FilterAction::Smooth,
        filter_action(errors_left, GLITCH_MAX_COUNT as nat, true, false) == FilterAction::Ignore,
{
}

/// A key or axis given by name and the same one given by its number
/// produce the same device events.
pub proof fn lemma_named_and_numeric_codes_agree(c: u16, kind: Kind, value: i32, centering: Map<u16, i32>, parking: Map<u16, i32>)
    ensures
        raw_code(OutputCodes::Key(c)) == raw_code(OutputCodes::CustomKey(c)),
        raw_code(OutputCodes::Axis(c)) == raw_code(OutputCodes::CustomAxis(c)),
        output_event(OutputCodes::Key(c), kind, value, centering, parking)
            == output_event(OutputCodes::CustomKey(c), kind, value, centering, parking),
        output_event(OutputCodes::Axis(c), kind, value, centering, parking)
            == output_event(OutputCodes::CustomAxis(c), kind, value, centering, parking),
{
}

/// Every routed device event goes to one of the four output devices: the
/// device of the slot of a combo output that produced it.
pub proof fn lemma_routed_slots(outputs: Seq<(OutputEvent, Kind, i32)>, centering: Map<u16, i32>, parking: Map<u16, i32>)
    ensures
        forall|j: int| 0 <= j < routed_events(outputs, centering, parking).len() ==> {
            let e = #[trigger] routed_events(outputs, centering, parking)[j];
            &&& e.slot < 4
            &&& exists|i: int| 0 <= i < outputs.len() && e.slot == slot_index(outputs[i].0.slot)
                && output_event(outputs[i].0.code, outputs[i].1, outputs[i].2, centering, parking) == Some(e.event)
        },
    decreases outputs.len(),
{
    if outputs.len() > 0 {
        let d = outputs.drop_last();
        lemma_routed_slots(d, centering, parking);
        let before = routed_events(d, centering, parking);
        let all = routed_events(outputs, centering, parking);
        assert forall|j: int| 0 <= j < all.len() implies {
            let e = #[trigger] all[j];
            &&& e.slot < 4
            &&& exists|i: int| 0 <= i < outputs.len() && e.slot == slot_index(outputs[i].0.slot)
                && output_event(outputs[i].0.code, outputs[i].1, outputs[i].2, centering, parking) == Some(e.event)
        } by {
            if j < before.len() {
                assert(all[j] == before[j]);
                let i = choose|i: int| 0 <= i < d.len() && before[j].slot == slot_index(d[i].0.slot)
                    && output_event(d[i].0.code, d[i].1, d[i].2, centering, parking) == Some(before[j].event);
                assert(outputs[i] == d[i]);
            } else {
                let i = outputs.len() - 1;
                assert(outputs[i] == outputs.last());
            }
        }
    }
}

/// An axis action that engages takes the centering value configured last
/// for its axis, and one that disengages the parking value configured last.
pub proof fn lemma_axis_values(entries: Seq<(OutputCodes, i32)>, i: int, a: u16, value: i32, other: Map<u16, i32>)
    requires
        0 <= i < entries.len(),
        raw_code(entries[i].0) == a,
        forall|j: int| i < j < entries.len() ==> raw_code(#[trigger] entries[j].0) != a,
    ensures
        output_event(OutputCodes::Axis(a), Kind::AxisEngage, value, last_entry_wins(raw_entries(entries)), other)
            == Some(DeviceEvent { event_type: codes::EV_ABS, code: a, value: entries[i].1 }),
        output_event(OutputCodes::Axis(a), Kind::AxisDisengage, value, other, last_entry_wins(raw_entries(entries)))
            == Some(DeviceEvent { event_type: codes::EV_ABS, code: a, value: entries[i].1 }),
{
    let raw = raw_entries(entries);
    assert(raw[i] == (a, entries[i].1));
    assert forall|j: int| i < j < raw.len() implies #[trigger] raw[j].0 != a by {
        assert(raw[j].0 == raw_code(entries[j].0));
    }
    lemma_last_entry_wins(raw, a);
    assert(raw.len() == entries.len());
    assert(raw[i].0 == a);
    assert(last_entry_wins(raw).dom().contains(a));
    assert(last_entry_wins(raw)[a] == raw[i].1);
    assert(table_event(last_entry_wins(raw), a) == Some(DeviceEvent { event_type: codes::EV_ABS, code: a, value: entries[i].1 }));
}

/// The accelerometer reports on the X, Y and Z axes and ends each sample
/// with its own synchronisation report; the IR camera's dot coordinates,
/// its synchronisation report and the buttons are not accelerometer events.
pub proof fn lemma_accelerometer_events(code: u16, value: i32, kind: Kind)
    ensures
        is_accel_event(Raw::Abs(codes::ABS_X, value)),
        is_accel_event(Raw::Abs(codes::ABS_Y, value)),
        is_accel_event(Raw::Abs(codes::ABS_Z, value)),
        is_accel_event(Raw::AccelSyn),
        !is_accel_event(Raw::IRSyn),
        !is_accel_event(Raw::Key(code, kind)),
        codes::ABS_HAT0X <= code <= codes::ABS_HAT3Y ==> !is_accel_event(Raw::Abs(code, value)),
        is_accel_event(Raw::Abs(code, value)) <==> (code == codes::ABS_X || code == codes::ABS_Y || code == codes::ABS_Z),
{
}

/// A frame with a visible dot yields a sensor bar position exactly when a
/// pair passes the checks or a bar was seen before; without a pair, a dot
/// seen after a bar is tracked alone.
pub proof fn lemma_frame_yields_position(state: IRState, visible: nat, pair_found: bool)
    ensures
        track_step(state, visible, pair_found).1 <==> (visible > 0 && (pair_found || state != IRState::DEAD)),
        visible > 0 && !pair_found && state != IRState::DEAD
            ==> track_step(state, visible, pair_found) == (IRState::SINGLE, true),
        visible == 0 && state != IRState::DEAD ==> track_step(state, visible, pair_found) == (IRState::LOST, false),
{
}

/// While the pointer is followed, a sensor bar near it is always followed,
/// whatever the number of glitches counted before; a far one is ignored
/// until more than `GLITCH_MAX_COUNT` glitches were counted.
pub proof fn lemma_near_bar_is_followed(errors_left: nat, glitches: nat)
    requires
        errors_left > 0,
    ensures
        filter_action(errors_left, glitches, true, true) == FilterAction::Smooth,
        filter_action(errors_left, glitches, true, false) == FilterAction::Ignore <==> glitches <= GLITCH_MAX_COUNT,
        filter_action(errors_left, glitches, true, false) == FilterAction::Smooth <==> glitches > GLITCH_MAX_COUNT,
{
}

/// The combo engine knows each input of the remote under a code of its own.
pub proof fn lemma_input_codes_distinct(a: WiimoteEvent, b: WiimoteEvent)
    ensures
        input_code_of(a) == input_code_of(b) ==> a == b,
        input_code_of(a) < 13,
{
}

/// An action is refused exactly when it maps a pointer axis to a key, named
/// or given by number, or a button to an axis, named or given by number; a
/// disabled action never is.
pub proof fn lemma_mismatched_actions(e: WiimoteEvent, o: OutputEvent)
    ensures
        is_mismatched((e, Some(o))) <==> (
            ((e == WiimoteEvent::IRAbsX || e == WiimoteEvent::IRAbsY) && (o.code is Key || o.code is CustomKey))
            || (!(e == WiimoteEvent::IRAbsX || e == WiimoteEvent::IRAbsY) && (o.code is Axis || o.code is CustomAxis))),
        !is_mismatched((e, None)),
        is_key_code(o.code) <==> (o.code is Key || o.code is CustomKey),
{
}

} // verus!
