//! Lifecycle control for a desktop shell that keeps running in the background:
//! a single-instance gate, window and tray event routing, and a few operating
//! system queries whose decisions are made here on plain values.

pub mod text;
pub mod git;
pub mod foreground;
pub mod startup;
pub mod shell;
pub mod instance;
