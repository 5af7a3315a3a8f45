//! Article detail viewing and configuration bootstrap for a terminal feed
//! reader.
//!
//! The crate reflows raw article body text into display rows, tracks a
//! scroll cursor over those rows, translates keyboard input into navigation
//! intents, and resolves the per-user configuration directory and default
//! configuration file.

pub mod article;
pub mod config;
pub mod text;
