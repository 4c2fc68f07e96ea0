//! Linux input event codes used by the Wii Remote kernel driver.
use vstd::prelude::*;

verus! {

/// Event type of synchronisation reports.
pub const EV_SYN: u16 = 0x00;
/// Event type of key and button reports.
pub const EV_KEY: u16 = 0x01;
/// Event type of absolute axis reports.
pub const EV_ABS: u16 = 0x03;

/// Value that a key report carries when the key has just been pressed.
pub const KEY_STATE_PRESSED: i32 = 1;

pub const BTN_1: u16 = 0x101;
pub const BTN_2: u16 = 0x102;
pub const BTN_SOUTH: u16 = 0x130;
pub const BTN_EAST: u16 = 0x131;
pub const BTN_SELECT: u16 = 0x13a;
pub const BTN_START: u16 = 0x13b;
pub const BTN_MODE: u16 = 0x13c;
pub const BTN_DPAD_UP: u16 = 0x220;
pub const BTN_DPAD_DOWN: u16 = 0x221;
pub const BTN_DPAD_LEFT: u16 = 0x222;
pub const BTN_DPAD_RIGHT: u16 = 0x223;

pub const ABS_X: u16 = 0x00;
pub const ABS_Y: u16 = 0x01;
pub const ABS_Z: u16 = 0x02;
pub const ABS_HAT0X: u16 = 0x10;
pub const ABS_HAT0Y: u16 = 0x11;
pub const ABS_HAT1X: u16 = 0x12;
pub const ABS_HAT1Y: u16 = 0x13;
pub const ABS_HAT2X: u16 = 0x14;
pub const ABS_HAT2Y: u16 = 0x15;
pub const ABS_HAT3X: u16 = 0x16;
pub const ABS_HAT3Y: u16 = 0x17;

/// Largest value of an output absolute axis.
pub const AXIS_MAX: i32 = 4095;

} // verus!
