pub mod applescript;
pub mod cli;
pub mod config;
pub mod json;
pub mod loader;
pub mod logger;
pub mod saver;
pub mod text;
