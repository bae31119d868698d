//! Driver logic for a game console's controller ports.
//!
//! The library discovers attached input devices, negotiates an operating
//! mode with them, and refreshes their button state once per polling tick,
//! while hiding transient negotiation states from application code.
//!
//! The half-duplex serial bus itself is a hardware concern; here it is
//! modelled as a scripted exchange source ([`serial_connection::SerialConnection`])
//! so that the protocol driver and the per-slot state machine are verified
//! against every possible device behaviour. The hardware loop that feeds
//! real register reads into a tick lives outside this crate.
//!
//! Multi-device fan-out on a single port is not implemented: a port is
//! polled with one slot, though the polling cycle steps every slot it is
//! handed, addressing slot `n` as `0x01 + n`.

pub mod controller;
pub mod digital_controller;
pub mod laws;
pub mod peripheral;
pub mod serial_connection;
