//! Live-data synchronization engine for a tennis scoreboard display.
//!
//! The engine tracks a live match hosted by a remote real-time backend:
//! a background worker owns the network connection, drives the device
//! pairing handshake and the connect / select-tournament / select-court
//! progression, supervises a cancellable streaming subscription, and
//! translates loosely structured wire payloads into a typed match
//! snapshot. The pieces that decide and parse are verified here; the
//! I/O shell around them lives outside the library.

pub mod app;
pub mod components;
pub mod domain;
pub mod parse;
pub mod protocol;
pub mod text;
pub mod wire;
