//! The raw events read from the remote's three input devices, and their
//! synchronisation into accelerometer samples and IR frames.
use vstd::prelude::*;
use crate::codes;
use crate::track::RawDot;

verus! {

/// The kind of a combo event.
#[derive(Clone, Copy, Debug, PartialEq, Eq, Structural)]
pub enum Kind {
    /// A key was released.
    Up,
    /// A key was pressed.
    Down,
    /// An axis changed value.
    AxisUpdate,
    /// An axis action engaged.
    AxisEngage,
    /// An axis action disengaged.
    AxisDisengage,
}

/// An event read from one of the remote's input devices.
#[derive(Clone, Copy, Debug, PartialEq, Eq, Structural)]
pub enum Raw {
    /// A button, by its key code, pressed or released.
    Key(u16, Kind),
    /// An absolute axis, by its code, and its new value.
    Abs(u16, i32),
    /// The accelerometer finished a report.
    AccelSyn,
    /// The IR camera finished a report.
    IRSyn,
}

pub open spec fn is_accel_event(e: Raw) -> bool {
    match e {
        Raw::AccelSyn => true,
        Raw::Abs(a, _) => a == codes::ABS_X || a == codes::ABS_Y || a == codes::ABS_Z,
        _ => false,
    }
}

impl Raw {
    /// The event comes from the accelerometer.
    pub fn is_accel(&self) -> (r: bool)
        ensures
            r == is_accel_event(*self),
    {
        match self {
            Raw::AccelSyn => true,
            Raw::Abs(a, _) => *a == codes::ABS_X || *a == codes::ABS_Y || *a == codes::ABS_Z,
            _ => false,
        }
    }
}

/// The raw event of a report read from the buttons device, given by its
/// event type, code and value: key reports become presses (value 1) or
/// releases (any other value); other reports are skipped.
pub fn key_report(event_type: u16, code: u16, value: i32) -> (r: Option<Raw>)
    ensures
        r == (if event_type == codes::EV_KEY {
            Some(Raw::Key(code, if value == codes::KEY_STATE_PRESSED { Kind::Down } else { Kind::Up }))
        } else {
            None::<Raw>
        }),
{
    if event_type == codes::EV_KEY {
        Some(Raw::Key(code, if value == codes::KEY_STATE_PRESSED { Kind::Down } else { Kind::Up }))
    } else {
        None
    }
}

/// The raw event of a report read from an axis device (IR camera or
/// accelerometer): synchronisation reports become `syn`, axis reports keep
/// their code and value, other reports are skipped.
pub fn axis_report(event_type: u16, code: u16, value: i32, syn: Raw) -> (r: Option<Raw>)
    ensures
        r == (if event_type == codes::EV_SYN {
            Some(syn)
        } else if event_type == codes::EV_ABS {
            Some(Raw::Abs(code, value))
        } else {
            None::<Raw>
        }),
{
    if event_type == codes::EV_SYN {
        Some(syn)
    } else if event_type == codes::EV_ABS {
        Some(Raw::Abs(code, value))
    } else {
        None
    }
}

/// Which coordinate of which IR dot an axis code reports, if any.
pub open spec fn hat_target(code: u16) -> Option<(int, bool)> {
    if codes::ABS_HAT0X <= code <= codes::ABS_HAT3Y {
        let k = code - codes::ABS_HAT0X;
        Some((k / 2, k % 2 == 1))
    } else {
        None
    }
}

/// The IR dots after an axis report.
pub open spec fn dots_after(dots: Seq<RawDot>, code: u16, value: i32) -> Seq<RawDot> {
    match hat_target(code) {
        Some((i, is_y)) => dots.update(i, if is_y { RawDot { x: dots[i].x, y: value } } else { RawDot { x: value, y: dots[i].y } }),
        None => dots,
    }
}

/// Collects the IR camera's axis reports into a frame of four dots.
pub struct SyncIrEvents {
    pub dots: [RawDot; 4],
}

impl SyncIrEvents {
    /// A frame in which no dot is visible.
    pub fn new() -> (r: SyncIrEvents)
        ensures
            forall|i: int| 0 <= i < 4 ==> #[trigger] r.dots@[i] == (RawDot { x: 1023, y: 1023 }),
    {
        let none = RawDot { x: 1023, y: 1023 };
        SyncIrEvents { dots: [none, none, none, none] }
    }

    /// Records an event; returns whether the frame is complete, that is
    /// whether the event is the camera's synchronisation report.
    pub fn sync_event(&mut self, event: Raw) -> (complete: bool)
        ensures
            complete == (event == Raw::IRSyn),
            final(self).dots@ == (match event {
                Raw::Abs(code, value) => dots_after(old(self).dots@, code, value),
                _ => old(self).dots@,
            }),
    {
        match event {
            Raw::IRSyn => true,
            Raw::Abs(abs, value) => {
                if codes::ABS_HAT0X <= abs && abs <= codes::ABS_HAT3Y {
                    let k: u16 = abs - codes::ABS_HAT0X;
                    let i: usize = (k / 2) as usize;
                    let old_dot = self.dots[i];
                    if k % 2 == 1 {
                        self.dots[i] = RawDot { x: old_dot.x, y: value };
                    } else {
                        self.dots[i] = RawDot { x: value, y: old_dot.y };
                    }
                }
                false
            },
            _ => false,
        }
    }
}

/// Collects the accelerometer's axis reports into samples.
pub struct SyncAccelEvents {
    pub x: i32,
    pub y: i32,
    pub z: i32,
}

impl SyncAccelEvents {
    pub fn new() -> (r: SyncAccelEvents)
        ensures
            r.x == 0 && r.y == 0 && r.z == 0,
    {
        SyncAccelEvents { x: 0, y: 0, z: 0 }
    }

    /// Records an event; on the accelerometer's synchronisation report,
    /// returns the sample made of the last value of each axis.
    pub fn sync_event(&mut self, event: Raw) -> (r: Option<(i32, i32, i32)>)
        ensures
            r == (if event == Raw::AccelSyn { Some((old(self).x, old(self).y, old(self).z)) } else { None::<(i32, i32, i32)> }),
            final(self).x == (if event == Raw::Abs(codes::ABS_X, event->Abs_1) { event->Abs_1 } else { old(self).x }),
            final(self).y == (if event == Raw::Abs(codes::ABS_Y, event->Abs_1) { event->Abs_1 } else { old(self).y }),
            final(self).z == (if event == Raw::Abs(codes::ABS_Z, event->Abs_1) { event->Abs_1 } else { old(self).z }),
    {
        match event {
            Raw::AccelSyn => Some((self.x, self.y, self.z)),
            Raw::Abs(abs, value) => {
                if abs == codes::ABS_X {
                    self.x = value;
                } else if abs == codes::ABS_Y {
                    self.y = value;
                } else if abs == codes::ABS_Z {
                    self.z = value;
                }
                None
            },
            _ => None,
        }
    }
}

/// What a raw event completes, if anything.
#[derive(Clone, Copy, Debug)]
pub enum SyncOutcome {
    /// Nothing is complete yet.
    Pending,
    /// An accelerometer sample (x, y, z).
    Accel(i32, i32, i32),
    /// A frame of the IR camera.
    Frame([RawDot; 4]),
}

/// Splits the events of the accelerometer and of the IR camera and collects
/// each into samples and frames.
pub struct EventSync {
    pub sync_ir: SyncIrEvents,
    pub sync_acc: SyncAccelEvents,
}

impl EventSync {
    pub fn new() -> (r: EventSync)
        ensures
            forall|i: int| 0 <= i < 4 ==> #[trigger] r.sync_ir.dots@[i] == (RawDot { x: 1023, y: 1023 }),
            r.sync_acc.x == 0 && r.sync_acc.y == 0 && r.sync_acc.z == 0,
    {
        EventSync { sync_ir: SyncIrEvents::new(), sync_acc: SyncAccelEvents::new() }
    }

    /// Routes an event to the accelerometer or to the IR collector. Returns
    /// the accelerometer sample or the IR frame that the event completes.
    pub fn sync_event(&mut self, event: Raw) -> (r: SyncOutcome)
        ensures
            is_accel_event(event) ==> final(self).sync_ir.dots@ == old(self).sync_ir.dots@,
            !is_accel_event(event) ==> final(self).sync_acc == old(self).sync_acc,
            is_accel_event(event) && event == Raw::AccelSyn ==>
                r == SyncOutcome::Accel(old(self).sync_acc.x, old(self).sync_acc.y, old(self).sync_acc.z),
            !is_accel_event(event) && event == Raw::IRSyn ==> r == SyncOutcome::Frame(final(self).sync_ir.dots),
            event != Raw::AccelSyn && event != Raw::IRSyn ==> r == SyncOutcome::Pending,
            event is Abs && event->Abs_0 == codes::ABS_X ==> final(self).sync_acc.x == event->Abs_1,
            event is Abs && event->Abs_0 == codes::ABS_Y ==> final(self).sync_acc.y == event->Abs_1,
            event is Abs && event->Abs_0 == codes::ABS_Z ==> final(self).sync_acc.z == event->Abs_1,
            event == Raw::AccelSyn ==> r == SyncOutcome::Accel(old(self).sync_acc.x, old(self).sync_acc.y, old(self).sync_acc.z),
            !is_accel_event(event) ==> final(self).sync_ir.dots@ == (match event {
                Raw::Abs(code, value) => dots_after(old(self).sync_ir.dots@, code, value),
                _ => old(self).sync_ir.dots@,
            }),
            is_accel_event(event) ==> final(self).sync_acc.x == (if event == Raw::Abs(codes::ABS_X, event->Abs_1) { event->Abs_1 } else { old(self).sync_acc.x })
                && final(self).sync_acc.y == (if event == Raw::Abs(codes::ABS_Y, event->Abs_1) { event->Abs_1 } else { old(self).sync_acc.y })
                && final(self).sync_acc.z == (if event == Raw::Abs(codes::ABS_Z, event->Abs_1) { event->Abs_1 } else { old(self).sync_acc.z }),
    {
        if event.is_accel() {
            match self.sync_acc.sync_event(event) {
                Some((x, y, z)) => SyncOutcome::Accel(x, y, z),
                None => SyncOutcome::Pending,
            }
        } else if self.sync_ir.sync_event(event) {
            SyncOutcome::Frame(self.sync_ir.dots)
        } else {
            SyncOutcome::Pending
        }
    }
}

} // verus!
