//! The deciding core of a volume mixer for the command line.
//!
//! A mixer talks to a sound server through the server's client library,
//! which renders volumes as text, moves them by steps and carries them to
//! the server. This crate holds what is decided around that: how a rendered
//! volume reads as a percentage, where an adjustment is headed and which
//! step it asks for next, which device a request means, what a mute toggle
//! does, where the loudness stands in the record that outlives a mute, how
//! the device tables are laid out, and when to stop waiting for the server.
//!
//! Nothing here touches the server. A caller makes each exchange and hands
//! over what came back: plain numbers and text.

pub mod adjustment;
pub mod codec;
pub mod command;
pub mod device;
pub mod device_manager;
pub mod info_xtractor;
pub mod mute_store;
pub mod pulse;
pub mod pulse_driver;
pub mod server_info;
pub mod table;
pub mod text;
