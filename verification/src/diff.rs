//! The diff engine: every report is a pure function of a base and a head snapshot.

pub mod common;
pub mod error;
pub mod keyed;
pub mod laws;
pub mod operations;
pub mod parameters;
pub mod path_items;
pub mod paths;
pub mod request_body;

pub use error::DiffError;
