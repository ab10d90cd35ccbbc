//! Configuration, constants, errors and text utilities.

pub mod config;
pub mod constants;
pub mod error;
pub mod json;
pub mod path;
pub mod text;
