//! Synchronization core of a control panel for a configurable keyboard.
//!
//! The device exposes an unknown subset of a fixed set of settings over a
//! vendor HID protocol. This crate holds the logic that is independent of any
//! widget toolkit or transport: validating the hexadecimal connection fields,
//! the connection lifecycle state machine, the capability mirror built by
//! discovery, and the write-through controller that turns every edit gesture
//! into a local mutation plus exactly one device write.

pub mod edits;
pub mod hex;
pub mod mirror;
pub mod session;
