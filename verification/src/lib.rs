//! Core logic of a small environmental monitor: a fixed-capacity text
//! buffer for display lines, fixed-precision rendering of sensor
//! readings, and the per-cycle state machine that drives a best-effort,
//! never-halting sample-and-render loop.

pub mod fmtbuf;
pub mod reading;
pub mod textfmt;
pub mod cycle;
