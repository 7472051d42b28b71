//! Widgets of the library.

pub mod graph;
