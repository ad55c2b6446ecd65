//! Talking to macOS through AppleScript: the scripts, and what their output means.
pub mod app;
pub mod display;
pub mod osascript;
pub mod scripts;
pub mod utils;
pub mod window;
pub mod window_menu;
