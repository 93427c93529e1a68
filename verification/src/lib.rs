//! The command catalogue of a terminal emulator's GUI: which key
//! assignments exist by default, how each assignment is described in the
//! command palette and the menubar, and which key combinations trigger it.

pub mod modifiers;
pub mod text;
pub mod assignment;
pub mod render;
pub mod command;
pub mod defaults;
pub mod menubar;
pub mod laws;
