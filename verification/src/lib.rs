//! A minimal terminal text viewer engine.
//!
//! The crate holds the logic of a viewport over an immutable sequence of
//! text lines: scrolling offsets, a cursor, and the clamping and wrapping
//! rules that keep the cursor inside the viewport and on the text.  The
//! surrounding program supplies the lines and carries the rendered rows to
//! the screen; the engine itself performs no input or output.

pub mod buffer;
pub mod laws;
pub mod window;
