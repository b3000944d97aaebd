//! Decision engine that switches the active scene of a streaming host to follow
//! the desktop window that has focus.
//!
//! The engine classifies the title of the newly focused window, checks the
//! directed graph of permitted scene transitions, and learns a return path
//! whenever the gateway application is entered. It performs no I/O itself: the
//! caller feeds it focus events and snapshots of the host's scenes, and carries
//! out the steps it answers with.

pub mod text;
pub mod scene_nums;
pub mod prev_title;
pub mod title_map;
pub mod live_scenes;
pub mod engine;
pub mod notifier;
