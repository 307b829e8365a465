//! Core of a fan-control daemon: the shared control state, the
//! temperature-driven hysteresis policy that arbitrates between an explicit
//! user choice and automatic control, the periodic re-assertion rule for the
//! maximum-cooling mode, and the line-oriented command protocol a local
//! client speaks to the daemon.
//!
//! Everything here is pure logic over plain values: sensors, control files,
//! sockets and clocks live with the caller, which feeds readings and
//! timestamps in and carries hardware actions out.

pub mod client;
pub mod config;
pub mod fans;
pub mod protocol;
pub mod sensors;
pub mod state;
pub mod text;
pub mod types;
