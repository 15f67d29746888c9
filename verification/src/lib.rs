//! A generator of random passwords: entropy bytes from the operating
//! system's secure random source are mapped, one byte per character, into
//! the printable range of the standard character encoding.
//!
//! The library holds the logic: argument parsing into a [`Config`] and the
//! byte-to-password transform. Reading the entropy source and printing are
//! left to the surrounding program.

pub mod config;
pub mod generator;

pub use config::Config;
pub use config::ConfigError;
pub use generator::generate;
pub use generator::GenerationError;
