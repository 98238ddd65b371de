//! The logic of a Standard-mode desktop calculator: keypad entry on the
//! display text, pending binary operators, unary functions, the memory
//! register and the mapping from key labels to commands.
//!
//! Floating-point arithmetic is not done here: the caller computes every
//! `f64` result and hands it in as a [`number::Number`] (bit pattern plus
//! ten-decimal rendering). Everything that the calculator decides from those
//! results is verified here.
pub mod calculator;
pub mod effects;
pub mod keypad;
pub mod laws;
pub mod number;
pub mod ops;
pub mod text;
