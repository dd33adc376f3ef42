//! DNS setter library: provider catalogue, `netsh` command planning and
//! output parsing, the application state machine and the ping monitors.

pub mod domain;
pub mod text;
pub mod netsh;
pub mod ping_monitor;
pub mod ipv4;
pub mod model;
pub mod console;
