//! View-model of a small puzzle viewer.
//!
//! Every component is a function from plain values to a plain description of
//! what should be shown, so that any rendering backend can display it and every
//! rule about it can be stated and proved here.

pub mod button;
pub mod home_page;
pub mod shell;
pub mod sudoku;
pub mod sudoku_display;
