//! A progress-tracked list of named entries, driven by terminal key and mouse
//! events: the layout of the screen, hit testing, the textual progress bar and
//! the interaction state machine, each with a machine-checked contract.
//!
//! The library reads no terminal and writes no file: the caller hands it
//! events and the size of the screen, and learns from each outcome whether to
//! save the list and whether to leave its loop.

pub mod bar;
pub mod frame;
pub mod geometry;
pub mod hit;
pub mod model;
pub mod pump;
pub mod session;
pub mod text;
