//! The rules of a snake game on a ten by ten grid, as a state and the steps
//! that change it. Drawing, windows, the keyboard and the clock belong to the
//! program around it: that program reads the keys and the time that has passed
//! and hands the steps plain values.

pub mod grid;
pub mod food;
pub mod frame;
pub mod input;
pub mod movement;
pub mod state;
pub mod timer;
