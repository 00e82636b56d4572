//! A pixel canvas addressed in center-origin logical coordinates, backed by a
//! row-major buffer of packed 24-bit RGB values, with the drawing routines and
//! display-loop decisions that run on it.
pub mod canvas;
pub mod cli;
pub mod colors;
pub mod commands;
pub mod display;
