pub mod actions;
pub mod config;
pub mod output;
pub mod package;
pub mod summary;
pub mod text;
