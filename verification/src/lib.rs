//! TypePaste: paste text anywhere by emitting it as keystrokes.

pub mod error;
pub mod text;
pub mod config;
pub mod platform;
pub mod hotkey;
pub mod engine;
pub mod settings;
pub mod tray;
pub mod cli;
