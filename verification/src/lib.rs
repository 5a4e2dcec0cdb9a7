//! Decides which per-process audio sessions to mute while their window is in
//! the background, and remembers what it touched so that it can be undone.

pub mod audio;
pub mod display;
pub mod policy;
pub mod record;
pub mod scheduler;
pub mod text;
pub mod utils;
