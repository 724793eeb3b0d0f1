//! The logic of a serial console that shows kernel messages and application
//! output in two panes: splitting the stream, terminal panes with scrollback
//! and incremental search, modal key handling, pane layout, and the decisions
//! of the event loops.
//!
//! The functions here are verified against their contracts. Calls into `vt100`,
//! `regex`, `ratatui`, `smallvec` and `tokio` stand behind small items in
//! [`emulator`], [`pattern`], [`area`], [`serial`] and [`clock`] whose contracts
//! are believed. What reads a serial port, a keyboard or a clock hands plain
//! values in and performs the actions that come back.

pub mod app;
pub mod area;
pub mod clock;
pub mod emulator;
pub mod filter;
pub mod input;
pub mod pattern;
pub mod ports;
pub mod serial;
pub mod session;
pub mod terminal;
pub mod text;
pub mod tui;
pub mod ui;
