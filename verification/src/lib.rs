//! Bind a command to a key: the first press of the configured key launches
//! the command as a child process, the next press terminates it, and a press
//! after the child exited on its own relaunches it.
//!
//! The crate holds the decision logic of that daemon: the toggle state
//! machine, the liveness-report parsing, the argument validators and the
//! device-selection rules. The surrounding process plumbing (spawning,
//! signalling, device polling) stays with the caller, which feeds plain
//! values in and carries the decided actions out.

pub mod device;
pub mod liveness;
pub mod params;
pub mod parse;
pub mod toggle;
