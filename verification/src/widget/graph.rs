//! The graph editor canvas and its nodes.

pub mod edge;
pub mod editor;
pub mod node;

pub use editor::Event;
pub use node::Node;
