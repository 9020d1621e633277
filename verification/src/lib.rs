//! A fixed 254-entry RGB palette and a renderer that turns it into
//! ANSI truecolor terminal output.
//!
//! The palette is built in three phases: a 6x6x6 RGB cube, a grayscale
//! ramp that skips values already present in the cube, and a short list
//! of hand-picked extra colors; any remaining slots are zero-filled.
//! The renderer produces the output as a sequence of text lines, each
//! colored block being an ANSI escape sequence around three spaces.

pub mod color;
pub mod palette;
pub mod render;
