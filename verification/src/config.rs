//! Configuration model: input events, output codes, slots and screen limits.
use vstd::prelude::*;
use crate::codes;
use crate::text::{decimal, push_decimal};
use crate::actions::{
    action_check_result, capabilities_of, esperto_actions, esperto_validation, list_actions, validate_actions,
    announces, Capabilities, ConfigError, EspertoConfig,
};

verus! {

/// An input that the Wii Remote can report.
#[derive(Clone, Copy, Debug, PartialEq, Eq, Structural, Hash, PartialOrd, Ord)]
pub enum WiimoteEvent {
    A,
    B,
    Up,
    Down,
    Left,
    Right,
    Plus,
    Minus,
    Home,
    Btn1,
    Btn2,
    IRAbsX,
    IRAbsY,
}

/// The pointer axes are the only absolute axes of the remote.
pub open spec fn is_axis_event(e: WiimoteEvent) -> bool {
    e == WiimoteEvent::IRAbsX || e == WiimoteEvent::IRAbsY
}

/// The Wii Remote event that the kernel reports under a key code, if any.
pub open spec fn key_event_of(code: u16) -> Option<WiimoteEvent> {
    if code == codes::BTN_SOUTH { Some(WiimoteEvent::A) }
    else if code == codes::BTN_EAST { Some(WiimoteEvent::B) }
    else if code == codes::BTN_DPAD_UP { Some(WiimoteEvent::Up) }
    else if code == codes::BTN_DPAD_DOWN { Some(WiimoteEvent::Down) }
    else if code == codes::BTN_DPAD_LEFT { Some(WiimoteEvent::Left) }
    else if code == codes::BTN_DPAD_RIGHT { Some(WiimoteEvent::Right) }
    else if code == codes::BTN_START { Some(WiimoteEvent::Plus) }
    else if code == codes::BTN_SELECT { Some(WiimoteEvent::Minus) }
    else if code == codes::BTN_MODE { Some(WiimoteEvent::Home) }
    else if code == codes::BTN_1 { Some(WiimoteEvent::Btn1) }
    else if code == codes::BTN_2 { Some(WiimoteEvent::Btn2) }
    else { None }
}

/// The kernel key code of a Wii Remote button.
pub open spec fn key_code_of(e: WiimoteEvent) -> Option<u16> {
    match e {
        WiimoteEvent::A => Some(codes::BTN_SOUTH),
        WiimoteEvent::B => Some(codes::BTN_EAST),
        WiimoteEvent::Up => Some(codes::BTN_DPAD_UP),
        WiimoteEvent::Down => Some(codes::BTN_DPAD_DOWN),
        WiimoteEvent::Left => Some(codes::BTN_DPAD_LEFT),
        WiimoteEvent::Right => Some(codes::BTN_DPAD_RIGHT),
        WiimoteEvent::Plus => Some(codes::BTN_START),
        WiimoteEvent::Minus => Some(codes::BTN_SELECT),
        WiimoteEvent::Home => Some(codes::BTN_MODE),
        WiimoteEvent::Btn1 => Some(codes::BTN_1),
        WiimoteEvent::Btn2 => Some(codes::BTN_2),
        WiimoteEvent::IRAbsX => None,
        WiimoteEvent::IRAbsY => None,
    }
}

/// Whether the kernel reports a Wii Remote button under `code`.
pub fn is_wiimote_key(code: u16) -> (r: bool)
    ensures
        r == key_event_of(code) is Some,
{
    code == codes::BTN_SOUTH || code == codes::BTN_EAST || code == codes::BTN_DPAD_UP
        || code == codes::BTN_DPAD_DOWN || code == codes::BTN_DPAD_LEFT || code == codes::BTN_DPAD_RIGHT
        || code == codes::BTN_START || code == codes::BTN_SELECT || code == codes::BTN_MODE
        || code == codes::BTN_1 || code == codes::BTN_2
}

/// The key codes of all Wii Remote buttons, in the order of [`WiimoteEvent`].
pub fn wiimote_key_codes() -> (r: Vec<u16>)
    ensures
        r@.len() == 11,
        r@.no_duplicates(),
        forall|c: u16| r@.contains(c) <==> key_event_of(c) is Some,
{
    let r = vec![
        codes::BTN_SOUTH, codes::BTN_EAST, codes::BTN_DPAD_UP, codes::BTN_DPAD_DOWN,
        codes::BTN_DPAD_LEFT, codes::BTN_DPAD_RIGHT, codes::BTN_START, codes::BTN_SELECT,
        codes::BTN_MODE, codes::BTN_1, codes::BTN_2,
    ];
    proof {
        assert forall|c: u16| r@.contains(c) <==> key_event_of(c) is Some by {
            if key_event_of(c) is Some {
                if c == codes::BTN_SOUTH { assert(r@[0] == c); }
                else if c == codes::BTN_EAST { assert(r@[1] == c); }
                else if c == codes::BTN_DPAD_UP { assert(r@[2] == c); }
                else if c == codes::BTN_DPAD_DOWN { assert(r@[3] == c); }
                else if c == codes::BTN_DPAD_LEFT { assert(r@[4] == c); }
                else if c == codes::BTN_DPAD_RIGHT { assert(r@[5] == c); }
                else if c == codes::BTN_START { assert(r@[6] == c); }
                else if c == codes::BTN_SELECT { assert(r@[7] == c); }
                else if c == codes::BTN_MODE { assert(r@[8] == c); }
                else if c == codes::BTN_1 { assert(r@[9] == c); }
                else { assert(r@[10] == c); }
            }
        }
    }
    r
}

impl WiimoteEvent {
    /// The event of the button that the kernel reports under `code`.
    pub fn from_key_code(code: u16) -> (r: WiimoteEvent)
        requires
            key_event_of(code) is Some,
        ensures
            key_event_of(code) == Some(r),
    {
        if code == codes::BTN_SOUTH { WiimoteEvent::A }
        else if code == codes::BTN_EAST { WiimoteEvent::B }
        else if code == codes::BTN_DPAD_UP { WiimoteEvent::Up }
        else if code == codes::BTN_DPAD_DOWN { WiimoteEvent::Down }
        else if code == codes::BTN_DPAD_LEFT { WiimoteEvent::Left }
        else if code == codes::BTN_DPAD_RIGHT { WiimoteEvent::Right }
        else if code == codes::BTN_START { WiimoteEvent::Plus }
        else if code == codes::BTN_SELECT { WiimoteEvent::Minus }
        else if code == codes::BTN_MODE { WiimoteEvent::Home }
        else if code == codes::BTN_1 { WiimoteEvent::Btn1 }
        else { WiimoteEvent::Btn2 }
    }

    pub fn is_axis(&self) -> (r: bool)
        ensures
            r == is_axis_event(*self),
    {
        match self {
            WiimoteEvent::IRAbsX | WiimoteEvent::IRAbsY => true,
            _ => false,
        }
    }

    pub fn is_key(&self) -> (r: bool)
        ensures
            r == !is_axis_event(*self),
    {
        !self.is_axis()
    }
}

/// An output code: a named axis or key, or one given by its number.
#[derive(Clone, Copy, Debug, PartialEq, Eq, Structural, Hash, PartialOrd, Ord)]
pub enum OutputCodes {
    Axis(u16),
    Key(u16),
    CustomAxis(u16),
    CustomKey(u16),
}

pub open spec fn is_key_code(c: OutputCodes) -> bool {
    c is Key || c is CustomKey
}

/// The raw event code that an output code stands for.
pub open spec fn raw_code(c: OutputCodes) -> u16 {
    match c {
        OutputCodes::Axis(r) => r,
        OutputCodes::Key(r) => r,
        OutputCodes::CustomAxis(r) => r,
        OutputCodes::CustomKey(r) => r,
    }
}

impl OutputCodes {
    pub fn is_key(&self) -> (r: bool)
        ensures
            r == is_key_code(*self),
    {
        match self {
            OutputCodes::Key(_) | OutputCodes::CustomKey(_) => true,
            _ => false,
        }
    }

    pub fn is_axis(&self) -> (r: bool)
        ensures
            r == !is_key_code(*self),
    {
        !self.is_key()
    }

    pub fn get_raw(self) -> (r: u16)
        ensures
            r == raw_code(self),
    {
        match self {
            OutputCodes::Axis(raw) => raw,
            OutputCodes::Key(raw) => raw,
            OutputCodes::CustomAxis(raw) | OutputCodes::CustomKey(raw) => raw,
        }
    }
}

/// One of the four virtual output devices of a remote.
#[derive(Clone, Copy, Debug, PartialEq, Eq, Structural, Hash, PartialOrd, Ord)]
pub enum Slot {
    Slot1,
    Slot2,
    Slot3,
    Slot4,
}

pub open spec fn slot_index(s: Slot) -> nat {
    match s {
        Slot::Slot1 => 0,
        Slot::Slot2 => 1,
        Slot::Slot3 => 2,
        Slot::Slot4 => 3,
    }
}

impl Slot {
    pub fn to_index(&self) -> (r: usize)
        ensures
            r == slot_index(*self),
            r < 4,
    {
        match self {
            Slot::Slot1 => 0,
            Slot::Slot2 => 1,
            Slot::Slot3 => 2,
            Slot::Slot4 => 3,
        }
    }
}

impl Default for Slot {
    fn default() -> (r: Slot)
        ensures
            r == Slot::Slot1,
    {
        Slot::Slot1
    }
}

/// An output event code routed to one of the output devices.
#[derive(Clone, Copy, Debug, PartialEq, Eq, Structural, Hash, PartialOrd, Ord)]
pub struct OutputEvent {
    pub slot: Slot,
    pub code: OutputCodes,
}

/// Name and key repeat setting of an output device.
#[derive(Clone, Debug)]
pub struct SlotInfo {
    pub name: String,
    pub repeating: bool,
}

/// The name that an output device gets when the configuration names none.
pub open spec fn default_slot_name(n: nat) -> Seq<char> {
    "Esperto Wiimote "@ + decimal(n)
}

/// Default settings of output device `N`: it is called "Esperto Wiimote N",
/// and only the first device repeats held keys.
pub fn default_slot_info<const N: usize>() -> (r: SlotInfo)
    ensures
        r.name@ == default_slot_name(N as nat),
        r.repeating == (N == 1),
{
    let mut name = String::from_str("Esperto Wiimote ");
    proof {
        reveal_strlit("Esperto Wiimote ");
    }
    push_decimal(&mut name, N);
    SlotInfo { name, repeating: 1 == N }
}

impl Default for SlotInfo {
    fn default() -> (r: SlotInfo)
        ensures
            r.name@ == default_slot_name(0),
            !r.repeating,
    {
        default_slot_info::<0>()
    }
}

/// Settings of the four output devices.
#[derive(Clone, Debug)]
pub struct Slots {
    pub slot1: SlotInfo,
    pub slot2: SlotInfo,
    pub slot3: SlotInfo,
    pub slot4: SlotInfo,
}

impl Slots {
    /// The settings of the output device with index `i`.
    pub open spec fn spec_slot(&self, i: int) -> SlotInfo {
        if i == 0 { self.slot1 } else if i == 1 { self.slot2 } else if i == 2 { self.slot3 } else { self.slot4 }
    }

    pub fn index(&self, index: usize) -> (r: &SlotInfo)
        requires
            index < 4,
        ensures
            *r == self.spec_slot(index as int),
    {
        match index {
            0 => &self.slot1,
            1 => &self.slot2,
            2 => &self.slot3,
            _ => &self.slot4,
        }
    }
}

impl Default for Slots {
    fn default() -> (r: Slots)
        ensures
            forall|i: int| 0 <= i < 4 ==> (#[trigger] r.spec_slot(i)).name@ == default_slot_name((i + 1) as nat),
            forall|i: int| 0 <= i < 4 ==> (#[trigger] r.spec_slot(i)).repeating == (i == 0),
    {
        Slots {
            slot1: default_slot_info::<1>(),
            slot2: default_slot_info::<2>(),
            slot3: default_slot_info::<3>(),
            slot4: default_slot_info::<4>(),
        }
    }
}

/// Brings a value into the range of an output axis, `0..=4095`.
pub open spec fn clamp_axis_spec(v: int) -> int {
    if v < 0 { 0 } else if v > codes::AXIS_MAX { codes::AXIS_MAX as int } else { v }
}

/// Margins of the area that the pointer maps onto the output axes.
#[derive(Clone, Debug)]
pub struct ScreenLimits {
    pub north: i32,
    pub south: i32,
    pub west: i32,
    pub east: i32,
}

impl Default for ScreenLimits {
    fn default() -> (r: ScreenLimits)
        ensures
            r.north == 0,
            r.south == codes::AXIS_MAX,
            r.west == 0,
            r.east == codes::AXIS_MAX,
    {
        ScreenLimits { north: 0, south: 4095, west: 0, east: 4095 }
    }
}

impl ScreenLimits {
    /// Clamps a mapped pointer coordinate into the output axis range.
    pub fn clamp_axis(v: i32) -> (r: i32)
        ensures
            r == clamp_axis_spec(v as int),
    {
        if v < 0 {
            0
        } else if v > codes::AXIS_MAX {
            codes::AXIS_MAX
        } else {
            v
        }
    }
}

/// Position of the pointer axes while they are disengaged.
#[derive(Clone, Debug)]
pub struct Parking {
    pub x: i32,
    pub y: i32,
}

impl Default for Parking {
    fn default() -> (r: Parking)
        ensures
            r.x == codes::AXIS_MAX,
            r.y == codes::AXIS_MAX,
    {
        Parking { x: 4095, y: 4095 }
    }
}

/// The part of the configuration that decides how events are routed.
pub struct WiimoteConfig {
    /// Grab the remote's devices, so that no other program reads them.
    pub grab: bool,
    pub slots: Slots,
    pub screen_limits: ScreenLimits,
    /// Value that an output axis takes when its action engages.
    pub centering: Vec<(OutputCodes, i32)>,
    /// Value that an output axis takes when its action disengages.
    pub parking: Vec<(OutputCodes, i32)>,
    /// Command to run when the first remote connects.
    pub on_connect: Option<Vec<String>>,
    /// Command to run when the last remote disconnects.
    pub on_disconnect: Option<Vec<String>>,
    pub esperto: EspertoConfig,
}

impl WiimoteConfig {
    /// Checks the configuration: esperto's own checks, then that no action
    /// maps a key to an axis or an axis to a key. Returns esperto's warnings.
    pub fn validate(&self) -> (r: Result<Vec<String>, ConfigError>)
        ensures
            match esperto_validation(self.esperto) {
                Err(e) => r matches Err(ConfigError::Esperto(m)) && m@ == e,
                Ok(w) => {
                    &&& r is Ok ==> r->Ok_0@.map_values(|s: String| s@) == w
                    &&& action_check_result(esperto_actions(self.esperto), match r {
                            Ok(_) => Ok(()),
                            Err(e) => Err(e),
                        })
                },
            },
    {
        validate_actions(&self.esperto)
    }

    /// The key and axis codes that each of the four output devices must
    /// announce; a device with neither is not created.
    pub fn device_capabilities(&self) -> (r: Vec<Capabilities>)
        ensures
            r@.len() == 4,
            forall|i: int| 0 <= i < 4 ==> announces(#[trigger] r@[i], esperto_actions(self.esperto), i as nat),
    {
        let actions = list_actions(&self.esperto);
        capabilities_of(&actions)
    }
}

} // verus!
