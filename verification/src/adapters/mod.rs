pub mod tui;
pub mod log_store;
pub mod cli;
