//! The decisions of a remote-desktop agent, free of any I/O.
//!
//! The agent runs on the machine under control. A browser drives it over
//! WebRTC: screen frames go out as H.264, input events and control messages
//! come in. This library holds what the agent decides and computes; the
//! program around it owns sockets, threads, clocks and devices.

pub mod clipboard;
pub mod config;
pub mod control;
pub mod double;
pub mod input;
pub mod permission;
pub mod platform;
pub mod protocol;
pub mod provision;
pub mod signaling;
pub mod text;
pub mod time;
pub mod video;
pub mod webrtc_peer;
