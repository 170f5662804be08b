//! Resolution of named configuration values from three sources, tried in a
//! fixed priority order: a key-value file, the process environment table,
//! and one line of interactive input.
//!
//! The library holds the resolution logic only. Callers supply the raw
//! material as plain values: the file's lines, the environment entries for
//! the requested name, and the raw input line. Reading files, the real
//! environment and the terminal is the caller's business.

pub mod errors;
mod text;
pub mod file;
pub mod system;
pub mod interactive;
pub mod seeker;

pub use errors::EnvError;
pub use file::dotenvreader;
pub use system::{EnvEntry, systemreader};
pub use interactive::input;
pub use seeker::{envseeker, seek_sources, SearchType, SeekOutcome};
