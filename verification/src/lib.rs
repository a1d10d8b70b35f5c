pub mod cli;
pub mod errors;
pub mod files;
pub mod ids;
pub mod messages;
pub mod models;
pub mod paste;
pub mod paths;
pub mod records;
pub mod tui;
