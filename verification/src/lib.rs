//! Verified core of Marker's rustc driver: command-line handling, the
//! driver's start-up decisions, the id layouts shared with the API, lint
//! level mappings, span offsets and the structured error type.

pub mod text;
pub mod cli;
pub mod paths;
pub mod driver;
pub mod ids;
pub mod error;
pub mod levels;
pub mod kinds;
pub mod span;
pub mod lints;
pub mod storage;
