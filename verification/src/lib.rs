//! Core of a modal, terminal-resident text editor: a document buffer with a
//! cursor, a small set of editing modes, a keymap resolver that turns key
//! events into commands, and a dispatcher that executes those commands.
//!
//! Terminal rendering, raw input, and configuration persistence live outside
//! this crate; everything here is pure state manipulation with verified
//! contracts.

pub mod editor;
pub mod editor_config;
pub mod types;
