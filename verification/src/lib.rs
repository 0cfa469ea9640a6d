//! EDMA: browse embedded key-value stores and decode their bytes with byte layouts.
pub mod events;
pub mod key;
pub mod text;
pub mod utils;
pub mod config;
pub mod ui;
pub mod components;
pub mod constants;
pub mod terminal;
pub mod app;
pub mod shell;
