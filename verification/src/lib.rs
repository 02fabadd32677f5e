//! Configuration resolution for the JA2 Stracciatella engine host.
//!
//! The crate builds one validated [`config::EngineOptions`] record from a
//! decoded settings file and a command line, and offers the field-by-field
//! view of that record which the embedding host reads and edits.

pub mod text;
pub mod resources;
pub mod config;
pub mod boundary;
