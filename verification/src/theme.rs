//! The built-in look of nodes and canvas, derived from a palette.

use vstd::prelude::*;
use crate::render::{Background, Color};
use crate::widget::graph::{editor, node};

verus! {

/// The styles a node can take.
#[derive(Clone, Copy, Debug, PartialEq, Eq, Structural)]
pub enum Node {
    Default,
}

impl Default for Node {
    fn default() -> (style: Node)
        ensures
            style == Node::Default,
    {
        Node::Default
    }
}

/// The styles a canvas can take.
#[derive(Clone, Copy, Debug, PartialEq, Eq, Structural)]
pub enum Editor {
    Default,
}

impl Default for Editor {
    fn default() -> (style: Editor)
        ensures
            style == Editor::Default,
    {
        Editor::Default
    }
}

/// The colours of a theme that the built-in look draws on.
#[derive(Clone, Copy, Debug, PartialEq, Eq, Structural)]
pub struct Palette {
    /// Colour of text.
    pub text: Color,
    /// Colour behind everything.
    pub background: Color,
    /// A faint shade of the background.
    pub background_weak: Color,
    /// A strong shade of the background.
    pub background_strong: Color,
}

impl node::StyleSheet for Palette {
    type Style = Node;

    open spec fn spec_appearance(&self, style: Node) -> node::Appearance {
        node::Appearance {
            text_color: Some(self.text),
            background: Some(Background::Color(self.background)),
            border_radius: 3000,
            border_width: 1000,
            border_color: self.background_strong,
        }
    }

    fn appearance(&self, style: Node) -> (appearance: node::Appearance) {
        match style {
            Node::Default => node::Appearance {
                text_color: Some(self.text),
                background: Some(Background::Color(self.background)),
                border_radius: 3000,
                border_width: 1000,
                border_color: self.background_strong,
            },
        }
    }
}

impl editor::StyleSheet for Palette {
    type Style = Node;

    open spec fn spec_appearance(&self, style: Node) -> editor::Appearance {
        editor::Appearance {
            background: Some(Background::Color(self.background_weak)),
            border_radius: 0,
            border_width: 1000,
            border_color: self.background_strong,
            connector_width: 2000,
            connector_color: self.text,
        }
    }

    fn appearance(&self, style: Node) -> (appearance: editor::Appearance) {
        match style {
            Node::Default => editor::Appearance {
                background: Some(Background::Color(self.background_weak)),
                border_radius: 0,
                border_width: 1000,
                border_color: self.background_strong,
                connector_width: 2000,
                connector_color: self.text,
            },
        }
    }
}

} // verus!
