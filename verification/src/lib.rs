//! A command-line utility's core: negotiate sleep- and display-inhibition
//! leases with the desktop power managers, hold them for the span of a wait,
//! and release them deterministically.

pub mod bus;
pub mod cli;
pub mod dbus_sleep_inhibitor;
pub mod decimal;
pub mod errors;
pub mod orchestrate;
pub mod sleep_inhibitor;
