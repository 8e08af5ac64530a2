//! Songs as sound files.

pub mod exporter;
