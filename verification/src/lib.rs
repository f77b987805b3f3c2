//! Two small verified utilities around a terminal and an output-device
//! subsystem.
//!
//! The `lister` module renders a fail-fast listing of output ports: a count
//! line followed by one indexed line per port, stopping at the first port
//! whose name cannot be resolved.
//!
//! The `toggler` module plans a terminal session that enters a raw,
//! alternate-screen mode, holds for a fixed interval, and restores the
//! terminal by mirroring every entry step in reverse order. The plan is a
//! small state machine; a driver performs each action it hands out and
//! reports back whether the action succeeded.

pub mod decimal;
pub mod lister;
pub mod toggler;
