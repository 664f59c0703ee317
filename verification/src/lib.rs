//! Navigation and pagination core of a terminal feed browser.
//!
//! The library is the pure decision layer: [`page::Page`] slices a list into
//! terminal-sized windows, [`context::ScreenContext`] identifies the screen
//! the user is on, [`input`] classifies keystrokes, and [`router::decide`]
//! maps a screen and one input event to the next action. Reading the
//! terminal, drawing, and running external media commands belong to the
//! surrounding program, which calls in with plain values.

pub mod config;
pub mod context;
pub mod input;
pub mod page;
pub mod router;
