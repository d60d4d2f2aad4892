//! Gesture recognition and dispatch for pointing devices.
//!
//! The library turns streams of raw button and relative-motion samples into
//! discrete interaction events (taps, directional swipes, horizontal scroll
//! steps) and decides, per event and per focused window class, which external
//! commands a driver program should run.  Device file I/O, thread spawning and
//! command execution live outside the library; everything here is pure
//! decision logic with contracts.

pub mod config;
pub mod context;
pub mod input;
