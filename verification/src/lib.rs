//! Core of a desktop background-agent shell.
//!
//! The shell keeps a process resident behind a system-tray icon: closing a
//! window hides it instead of terminating, a splash window is swapped for
//! the main window shortly after startup, autostart can be toggled, and a
//! small set of named commands reports back to the UI over a one-way log
//! channel.
//!
//! This crate holds the application lifecycle controller — the decision
//! logic — as a verified model: the window registry, the tray menu and its
//! dispatch, the autostart capability state, the splash timer, and the
//! command handlers' observable behaviour.  The platform itself (windowing,
//! tray rendering, networking, OS autostart registration) acts at the
//! edges: it delivers events and outcomes as plain values, and this crate
//! decides what they mean.

pub mod autostart;
pub mod commands;
pub mod events;
pub mod lifecycle;
pub mod shell;
pub mod tray;
pub mod text;
pub mod windows;
