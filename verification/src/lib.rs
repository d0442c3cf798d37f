//! Core of a real-time microphone/file audio mixing engine.
//!
//! The library models audio amplitudes as fixed-point integers (see
//! [`sample`]), ferries live capture samples through a single-producer /
//! single-consumer ring buffer ([`ring`]), sums an optional decoded file on
//! top of the live signal ([`playback`]), applies a master volume and
//! clamping ([`mixer`]), and speaks a line-oriented JSON command protocol
//! ([`protocol`], [`driver`]).  Device I/O, decoding and the process loop
//! live outside the library and hand it plain values.

pub mod sample;
pub mod ring;
pub mod playback;
pub mod mixer;
pub mod protocol;
pub mod driver;
