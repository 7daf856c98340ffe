//! Core of an interactive serial console for a cellular/GNSS modem: the
//! line-buffered command reader, the command dispatcher, the per-command
//! step workflows, and the AT pass-through bridge. All decisions are made
//! here on plain values; the runtime around the library performs the UART
//! and modem calls and feeds their results back in.

pub mod bridge;
pub mod bytes;
pub mod dispatch;
pub mod errors;
pub mod fetch;
pub mod line;
pub mod mode;
pub mod pending;
pub mod stat;
pub mod steps;
