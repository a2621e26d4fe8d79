//! Decoding of values returned by an embedded Lua script into typed records,
//! and the rates derived from a timed run.
//!
//! A script hands back a dynamic value. [`decode`] looks at it through the
//! `mlua` crate, records what it saw as plain data and turns that into a
//! record or a categorised error. [`number`] holds Lua's numbers as bit
//! patterns and converts them to integers without loss. [`timing`] derives
//! the per-iteration and per-operation figures from the elapsed time, and
//! [`runner`] puts these together: it runs a script under a clock. [`lua`]
//! holds every call into `mlua` and the clock.
pub mod number;
pub mod decode;
pub mod lua;
pub mod timing;
pub mod runner;
