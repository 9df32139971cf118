//! A wand is a sequence of runes that compiles into a spell: a tree of
//! projectile templates with timing and triggers, cast by a time-driven
//! state machine.

pub mod rune;
pub mod spell;
pub mod compiler;
pub mod wand;
pub mod cast;
