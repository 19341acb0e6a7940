//! The decision core of a wallpaper-rotating daemon.
//!
//! The daemon runs three loops side by side: a control channel that takes
//! `pause`, `unpause` and `kill` from a local socket, a scheduler that shows a
//! randomly chosen wallpaper at a fixed rate, and a coordinator that watches
//! signals, the backend process and the two loops, and shuts everything down
//! once. This crate holds what those loops decide; the host program performs
//! the socket, timer and process work and feeds the results back in.

pub mod channel;
pub mod daemon;
pub mod message;
pub mod rotation;
pub mod shutdown;
pub mod socket;
pub mod text;
