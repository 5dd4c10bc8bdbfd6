//! Cleaning of file names for a batch rename: which entries of a folder are
//! taken, what each is renamed to, and what is reported about it.

pub mod clock;
pub mod config;
pub mod driver;
pub mod extension;
pub mod logging;
pub mod messages;
pub mod sanitize;
pub mod text;
