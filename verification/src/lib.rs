//! State controller for an interactive 9x9 sudoku board.
//!
//! The board holds a 9x9 grid of digits (0 meaning empty) and an optional
//! selected cell. Pointer presses inside the grid select the cell under the
//! pointer, digit keys fill the selected cell, a cancel key clears the
//! selection, and an on-screen solve button overwrites the whole grid with a
//! placeholder digit. Rendering and input reading are left to the caller,
//! which feeds plain pixel coordinates and key values in and receives
//! per-cell display decisions back.

pub mod board;
pub mod display;
pub mod geometry;
