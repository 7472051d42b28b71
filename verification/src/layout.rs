//! Size limits and the boxes that a layout pass hands to events and drawing.

use vstd::prelude::*;
use crate::geometry::{Padding, Rectangle, Size};

verus! {

/// The smallest and the largest extent a widget may take.
#[derive(Clone, Copy, Debug, PartialEq, Eq, Structural)]
pub struct Limits {
    pub min: Size,
    pub max: Size,
}

impl Limits {
    pub fn new(min: Size, max: Size) -> (l: Limits)
        ensures
            l == (Limits { min, max }),
    {
        Limits { min, max }
    }

    /// The limits left inside `padding`: both bounds shrink by the padding,
    /// neither below zero.
    pub open spec fn spec_pad(self, padding: Padding) -> Limits {
        let by = Size {
            width: padding.spec_horizontal() as i32,
            height: padding.spec_vertical() as i32,
        };
        Limits { min: self.min.spec_shrink(by), max: self.max.spec_shrink(by) }
    }

    pub fn pad(&self, padding: Padding) -> (l: Limits)
        ensures
            l == self.spec_pad(padding),
    {
        let by = Size { width: padding.horizontal(), height: padding.vertical() };
        Limits { min: self.min.shrink(by), max: self.max.shrink(by) }
    }
}

/// Where one node and its content lie.
#[derive(Clone, Copy, Debug, PartialEq, Eq, Structural)]
pub struct NodeLayout {
    /// The outer box of the node, padding band included.
    pub bounds: Rectangle,
    /// The box of the content that the node wraps.
    pub content: Rectangle,
}

/// Where the canvas and each of its nodes lie, nodes in list order.
#[derive(Debug, PartialEq, Eq)]
pub struct Layout {
    pub bounds: Rectangle,
    pub children: Vec<NodeLayout>,
}

} // verus!
