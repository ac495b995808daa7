//! Decision logic of a keystroke feedback toy: each key press places a glyph
//! on screen, in a colour that stands out from the background, and may start
//! a short sound cue.
pub mod audio;
pub mod bindings;
pub mod chance;
pub mod colour;
pub mod placement;
pub mod session;
