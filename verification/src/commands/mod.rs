//! The decisions behind the application's commands.

pub mod session;
pub mod settings;
