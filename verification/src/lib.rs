//! Notification data, scheduling and toast rendering rules.
pub mod actions;
pub mod channel;
pub mod commands;
pub mod desktop;
pub mod error;
pub mod macos;
pub mod models;
pub mod text;
pub mod toast;
pub mod windows;
pub mod xml;
