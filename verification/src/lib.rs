pub mod app;
pub mod commands;
pub mod history;
pub mod key;
pub mod text;
pub mod prompt;
pub mod laws;
