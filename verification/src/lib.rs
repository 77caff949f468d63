//! A chat bot's verified core: command parsing, message threads, prompt building,
//! rate limiting and the small text rules around them.

pub mod text;
pub mod fmt;
pub mod settings;
pub mod db;
pub mod thread;
pub mod oleg;
pub mod oleg_command;
pub mod services;
pub mod command;
