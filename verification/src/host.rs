//! The host of the canvas: it owns the graph and the committed transform,
//! and applies what the canvas asks it to commit.

use vstd::prelude::*;
use crate::fixed::UNIT;
use crate::geometry::{Size, Vector};
use crate::theme;
use crate::node::{renumber, renumbered, Kind, Node};
use crate::transform::{clamp_scaling, valid_scaling};
use crate::widget::graph::editor::{Editor, Event};
use crate::widget::graph;

verus! {

/// The theme the host shows the canvas in.
#[derive(Clone, Copy, Debug, PartialEq, Eq, Structural)]
pub enum Theme {
    Light,
    Dark,
    /// A theme of the user's own, which the toggle leaves alone.
    Custom,
}

/// What the host reacts to.
#[derive(Clone, Copy, Debug, PartialEq, Eq, Structural)]
pub enum Message {
    /// The canvas asks to commit a change.
    Graph(Event),
    /// Switch between the light and the dark theme.
    ToggleTheme,
    /// Remove the node at the given place.
    DeleteNode(usize),
}

/// The state of the host.
#[derive(Debug, PartialEq, Eq)]
pub struct App {
    pub nodes: Vec<Node>,
    pub scaling: i32,
    pub translation: Vector,
    pub theme: Theme,
}

/// The theme after a toggle.
pub open spec fn toggled(theme: Theme) -> Theme {
    match theme {
        Theme::Light => Theme::Dark,
        Theme::Dark => Theme::Light,
        Theme::Custom => Theme::Custom,
    }
}

/// A copy of a list of places.
pub fn copy_of(places: &Vec<usize>) -> (copy: Vec<usize>)
    ensures
        copy@ == places@,
{
    let mut copy: Vec<usize> = Vec::new();
    let mut i: usize = 0;
    while i < places.len()
        invariant
            i <= places@.len(),
            copy@ == places@.subrange(0, i as int),
        decreases places@.len() - i,
    {
        copy.push(places[i]);
        i += 1;
    }
    copy
}

impl App {
    /// The committed scale lies within the accepted zoom range.
    pub open spec fn wf(&self) -> bool {
        valid_scaling(self.scaling as int)
    }

    /// Whether the host can apply `message`: a message about a node names a
    /// place in the list.
    pub open spec fn accepts(&self, message: Message) -> bool {
        match message {
            Message::Graph(Event::NodeMoved { index, .. }) => index < self.nodes@.len(),
            Message::DeleteNode(index) => index < self.nodes@.len(),
            _ => true,
        }
    }

    /// A host with a sample graph of four nodes, at scale one, not
    /// translated, in the light theme.
    pub fn new() -> (app: App)
        ensures
            app.wf(),
            app.scaling == UNIT,
            app.translation == Vector::zero(),
            app.theme == Theme::Light,
            app.nodes@.len() == 4,
            app.nodes@[0].kind == Kind::A,
            app.nodes@[0].offset == (Vector { x: 50_000, y: 50_000 }),
            app.nodes@[0].edges@ == seq![1usize],
            app.nodes@[1].kind == Kind::B,
            app.nodes@[1].offset == (Vector { x: 150_000, y: 100_000 }),
            app.nodes@[1].edges@ == seq![2usize, 3usize],
            app.nodes@[2].kind == Kind::C,
            app.nodes@[2].offset == (Vector { x: 350_000, y: 25_000 }),
            app.nodes@[2].edges@ == seq![3usize],
            app.nodes@[3].kind == Kind::D,
            app.nodes@[3].offset == (Vector { x: 500_000, y: 200_000 }),
            app.nodes@[3].edges@ == Seq::<usize>::empty(),
    {
        let mut nodes: Vec<Node> = Vec::new();
        let mut first: Vec<usize> = Vec::new();
        first.push(1);
        let mut second: Vec<usize> = Vec::new();
        second.push(2);
        second.push(3);
        let mut third: Vec<usize> = Vec::new();
        third.push(3);
        nodes.push(Node { kind: Kind::A, offset: Vector { x: 50_000, y: 50_000 }, edges: first });
        nodes.push(
            Node { kind: Kind::B, offset: Vector { x: 150_000, y: 100_000 }, edges: second },
        );
        nodes.push(Node { kind: Kind::C, offset: Vector { x: 350_000, y: 25_000 }, edges: third });
        nodes.push(
            Node { kind: Kind::D, offset: Vector { x: 500_000, y: 200_000 }, edges: Vec::new() },
        );
        proof {
            assert(nodes@[0].edges@ =~= seq![1usize]);
            assert(nodes@[1].edges@ =~= seq![2usize, 3usize]);
            assert(nodes@[2].edges@ =~= seq![3usize]);
        }
        App { nodes, scaling: UNIT, translation: Vector::zero(), theme: Theme::Light }
    }

    /// The canvas of a frame: one node for each node of the graph, in order,
    /// which wraps the content made for it and has its offset and its
    /// edges, under the committed scale and translation. Canvas and nodes
    /// are in the default style, and a node may take up to 300 by 300
    /// pixels. Contents beyond the nodes are dropped, and nodes beyond the
    /// contents are left out.
    pub fn view<C>(&self, contents: Vec<C>) -> (editor: Editor<C>)
        requires
            self.wf(),
        ensures
            editor.wf(),
            editor.scaling == self.scaling,
            editor.translation == self.translation,
            editor.max_node_size == (Size { width: 300_000, height: 300_000 }),
            editor.style == theme::Node::Default,
            editor.nodes@.len() == if contents@.len() <= self.nodes@.len() {
                contents@.len()
            } else {
                self.nodes@.len()
            },
            forall|i: int|
                0 <= i < editor.nodes@.len() ==> {
                    let node = #[trigger] editor.nodes@[i];
                    &&& node.content == contents@[i]
                    &&& node.offset == self.nodes@[i].offset
                    &&& node.edges@ == self.nodes@[i].edges@
                    &&& node.style == theme::Node::Default
                },
    {
        let mut nodes: Vec<graph::Node<C>> = Vec::new();
        let mut contents = contents;
        contents.truncate(self.nodes.len());
        let ghost kept = contents@;
        for content in each: contents
            invariant
                kept.len() <= self.nodes@.len(),
                each.seq() == kept,
                nodes@.len() == each.index(),
                forall|j: int|
                    0 <= j < nodes@.len() ==> {
                        let node = #[trigger] nodes@[j];
                        &&& node.content == kept[j]
                        &&& node.offset == self.nodes@[j].offset
                        &&& node.edges@ == self.nodes@[j].edges@
                        &&& node.style == theme::Node::Default
                    },
        {
            let place = nodes.len();
            let edges = copy_of(&self.nodes[place].edges);
            nodes.push(graph::Node::new(content, self.nodes[place].offset, edges));
        }
        Editor::new(nodes).scaling(self.scaling).translation(self.translation)
    }

    /// Removes the node at place `index` and renumbers the edges of the
    /// others: every remaining node keeps its kind and its offset, loses
    /// its edges to the removed node, and has each target behind the
    /// removed place moved up by one.
    pub fn delete_node(&mut self, index: usize)
        requires
            index < old(self).nodes@.len(),
        ensures
            final(self).scaling == old(self).scaling,
            final(self).translation == old(self).translation,
            final(self).theme == old(self).theme,
            final(self).nodes@.len() == old(self).nodes@.len() - 1,
            forall|i: int|
                0 <= i < final(self).nodes@.len() ==> {
                    let before = old(self).nodes@.remove(index as int)[i];
                    let after = #[trigger] final(self).nodes@[i];
                    &&& after.kind == before.kind
                    &&& after.offset == before.offset
                    &&& after.edges@ == renumbered(before.edges@, index)
                },
    {
        let _ = self.nodes.remove(index);
        let ghost rest = self.nodes@;
        let count = self.nodes.len();
        let mut i: usize = 0;
        while i < count
            invariant
                i <= count,
                count == rest.len(),
                self.nodes@.len() == count,
                self.scaling == old(self).scaling,
                self.translation == old(self).translation,
                self.theme == old(self).theme,
                forall|j: int|
                    0 <= j < i ==> {
                        let after = #[trigger] self.nodes@[j];
                        &&& after.kind == rest[j].kind
                        &&& after.offset == rest[j].offset
                        &&& after.edges@ == renumbered(rest[j].edges@, index)
                    },
                forall|j: int| i <= j < count ==> self.nodes@[j] == rest[j],
            decreases count - i,
        {
            let kept = renumber(&self.nodes[i].edges, index);
            let node = Node { kind: self.nodes[i].kind, offset: self.nodes[i].offset, edges: kept };
            self.nodes.set(i, node);
            i += 1;
        }
    }

    /// Applies one message.
    ///
    /// A moved node takes its new offset; a new scale is stored together
    /// with its translation, the scale brought into the accepted zoom range;
    /// a new translation is stored; the theme toggles between light and
    /// dark; a deleted node leaves the list as [`App::delete_node`] says.
    pub fn update(&mut self, message: Message)
        requires
            old(self).accepts(message),
        ensures
            old(self).wf() ==> final(self).wf(),
            match message {
                Message::Graph(Event::NodeMoved { index, offset }) => {
                    &&& final(self).scaling == old(self).scaling
                    &&& final(self).translation == old(self).translation
                    &&& final(self).theme == old(self).theme
                    &&& final(self).nodes@.len() == old(self).nodes@.len()
                    &&& final(self).nodes@[index as int].kind == old(self).nodes@[index as int].kind
                    &&& final(self).nodes@[index as int].edges == old(self).nodes@[index as int].edges
                    &&& final(self).nodes@[index as int].offset == offset
                    &&& forall|i: int|
                        0 <= i < old(self).nodes@.len() && i != index ==> final(self).nodes@[i]
                            == old(self).nodes@[i]
                },
                Message::Graph(Event::Scaled(scaling, translation)) => {
                    &&& final(self).nodes == old(self).nodes
                    &&& final(self).theme == old(self).theme
                    &&& final(self).scaling == clamp_scaling(scaling)
                    &&& final(self).translation == translation
                },
                Message::Graph(Event::Translated(translation)) => {
                    &&& final(self).nodes == old(self).nodes
                    &&& final(self).theme == old(self).theme
                    &&& final(self).scaling == old(self).scaling
                    &&& final(self).translation == translation
                },
                Message::ToggleTheme => {
                    &&& final(self).nodes == old(self).nodes
                    &&& final(self).scaling == old(self).scaling
                    &&& final(self).translation == old(self).translation
                    &&& final(self).theme == toggled(old(self).theme)
                },
                Message::DeleteNode(index) => {
                    &&& final(self).scaling == old(self).scaling
                    &&& final(self).translation == old(self).translation
                    &&& final(self).theme == old(self).theme
                    &&& final(self).nodes@.len() == old(self).nodes@.len() - 1
                    &&& forall|i: int|
                        0 <= i < final(self).nodes@.len() ==> {
                            let before = old(self).nodes@.remove(index as int)[i];
                            let after = #[trigger] final(self).nodes@[i];
                            &&& after.kind == before.kind
                            &&& after.offset == before.offset
                            &&& after.edges@ == renumbered(before.edges@, index)
                        }
                },
            },
    {
        match message {
            Message::Graph(event) => match event {
                Event::NodeMoved { index, offset } => {
                    self.nodes[index].offset = offset;
                },
                Event::Scaled(scaling, translation) => {
                    self.scaling = clamp_scaling(scaling);
                    self.translation = translation;
                },
                Event::Translated(translation) => {
                    self.translation = translation;
                },
            },
            Message::ToggleTheme => {
                self.theme = match self.theme {
                    Theme::Light => Theme::Dark,
                    Theme::Dark => Theme::Light,
                    Theme::Custom => Theme::Custom,
                };
            },
            Message::DeleteNode(index) => {
                self.delete_node(index);
            },
        }
    }
}

} // verus!
