//! Plays a decoded sequence of RGBA frames as coloured block glyphs in a
//! terminal, at a fixed tick rate.
//!
//! The library holds the logic: the frame store, the conversion of a frame
//! into terminal line writes, the playback state machine and the terminal
//! mode lifecycle. Writing to the terminal, timing and audio are left to the
//! caller.

pub mod frame;
pub mod render;
pub mod schedule;
pub mod session;
pub mod media;
pub mod player;
