//! Verified core of brightvol: the brightness stepping rule, the decisions
//! taken by the keyboard hook, the tray menu and start-up sequence, the
//! run-on-login registry protocol, and the persisted configuration.
//!
//! Everything that talks to the operating system lives outside this crate and
//! drives the state machines defined here.

pub mod autostart;
pub mod brightness;
pub mod config;
pub mod decimal;
pub mod hook;
pub mod logging;
pub mod tray;
