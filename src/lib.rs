//! Checks the declared outcome of a tracing exercise (does the program
//! compile, and what does it print) against what the toolchain observed.
//!
//! The staging of a workspace and the toolchain processes live outside this
//! library; it receives their observations as plain values and decides which
//! diagnostics to raise, each anchored at the field of the authoring document
//! that is wrong.

pub mod text;
pub mod normalize;
pub mod outcome;
pub mod assess;
pub mod laws;
