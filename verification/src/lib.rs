//! Structural comparison of two snapshots of an OpenAPI-shaped document.
//!
//! [`openapi`] holds the document model that the comparison reads, and
//! [`diff`] the comparison itself together with the reports it produces.

pub mod diff;
pub mod openapi;
