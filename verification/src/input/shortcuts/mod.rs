//! Shortcuts: the action vocabulary, the chords that reach it, and the table
//! that joins the two.

pub mod action;
pub mod bindings;
pub mod chord;
pub mod custom;
pub mod defaults;
