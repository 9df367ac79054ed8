//! Control-to-signal bridge for a tape-delay style audio instrument.
//!
//! The library turns a stream of sparse control events (pot positions,
//! control-voltage offsets, switches, a button) into a complete,
//! always-valid attribute set for a digital signal processor, and folds the
//! processor's per-block reaction back into stable display outputs. It also
//! plans the fixed-size chunking of every audio block and the sizing of the
//! processor's memory arena.
//!
//! Control values are fixed-point integers counting thousandths of a unit;
//! the host-facing layer converts its floating-point samples and events at
//! the boundary.

pub mod arena;
pub mod cache;
pub mod control;
pub mod dispatch;
pub mod param;
pub mod reaction;
pub mod value;
