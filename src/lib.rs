//! Frame pacing for a window that shows a GPU-computed image each frame, and a
//! free-look camera driven by keyboard input.

pub mod camera;
pub mod controls;
pub mod present;
