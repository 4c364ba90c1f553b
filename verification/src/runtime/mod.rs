//! The model, message and command shape that a program built with the kit
//! runs on.

pub mod command;
pub mod config;
pub mod error;
pub mod keys;
pub mod program;
