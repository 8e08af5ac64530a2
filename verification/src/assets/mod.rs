//! Texts that ship with the library.

pub mod loader;
