//! Helpers around songs.

pub mod effects;
