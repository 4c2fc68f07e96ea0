//! Event routing, configuration checks and tracking state for a Wii Remote
//! input mapper.

pub mod actions;
pub mod calibration;
pub mod codes;
pub mod combo;
pub mod config;
pub mod events;
pub mod laws;
pub mod matcher;
pub mod output;
pub mod routing;
pub mod session;
pub mod text;
pub mod track;
