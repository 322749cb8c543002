//! Decision logic of a small tiling window manager for Windows: which windows
//! are tiled, where each one goes, how a hook paints a border round a window,
//! and what each message of the message loops asks for. The calls into the
//! Windows API are made by the program around this library; this library
//! decides what they are given and what is done with their answers.

pub mod geometry;
pub mod text;
pub mod border;
pub mod windows;
pub mod tiling;
pub mod messages;
pub mod tray;

