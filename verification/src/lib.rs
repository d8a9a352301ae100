//! The decision core of the vibeWM window manager: which windows there
//! are, where they go, which of them has the focus, and what a key means.
//!
//! Nothing in this crate talks to a display server, reads a file or a
//! clock, or draws. Whoever does hands in plain values (the windows as the
//! platform reports them, the texts of files, the time in milliseconds)
//! and gets back the new state and what is to be done.
//!
//! - [`window`]: the registry of windows, their stacking order and the
//!   focus
//! - [`arrange`]: where a move, a resize or a snap puts a window
//! - [`input`]: the dispatcher of key events
//! - [`command_center`]: the launcher overlay, its search and its clocks
//! - [`catalog`], [`desktop_entry`], [`fuzzy`]: the applications that the
//!   launcher knows, how they are read and how a query ranks them
//! - [`state`]: all of it under one roof

pub mod arrange;
pub mod battery;
pub mod catalog;
pub mod command_center;
pub mod config;
pub mod desktop_entry;
pub mod fuzzy;
pub mod geometry;
pub mod input;
pub mod render_command_center;
pub mod state;
pub mod text;
pub mod window;
