//! Interaction core of a node-and-edge graph editor canvas.
//!
//! The canvas shows draggable nodes joined by curved connectors and can be
//! panned and zoomed. This crate holds everything the canvas decides and
//! computes: layout, hit testing under the transform, the hover and drag
//! state machine of a node, the pan and zoom gestures of the canvas, and
//! the geometry of the connectors. It draws nothing and owns no window: a
//! host hands it input and layout, applies the events it emits, and sends
//! the scene it composes to a renderer.
//!
//! Every length is an integer counted in thousandths of a logical pixel and
//! every scale factor in thousandths, so the whole pipeline is exact integer
//! arithmetic: quotients round down and sums saturate at the range of `i32`.
//! The one quotient that rounds up is the scale after a zoom inwards, so
//! that every turn of the wheel moves the scale.
//!
//! - [`fixed`], [`geometry`], [`transform`]: the arithmetic.
//! - [`pointer`], [`layout`], [`render`]: what goes in and what comes out.
//! - [`widget::graph`]: the canvas, its nodes and its connectors.
//! - [`theme`]: the built-in look.
//! - [`node`], [`host`]: a host that owns a graph and commits the events.

pub mod fixed;
pub mod geometry;
pub mod host;
pub mod layout;
pub mod node;
pub mod pointer;
pub mod render;
pub mod theme;
pub mod transform;
pub mod widget;
