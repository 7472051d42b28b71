//! The canvas: routes input to its nodes, recognises pan and zoom gestures,
//! and composes what is drawn.

use vstd::prelude::*;
use crate::fixed::{div_floor, saturate, saturating, UNIT};
use crate::geometry::{Point, Rectangle, Size, Vector};
use crate::layout::{Layout, Limits, NodeLayout};
use crate::pointer::{Affordance, Button, Input, Status};
use crate::render::{Background, Color, Connector, Quad};
use crate::theme;
use crate::transform::{unscaled, spec_unscaled, valid_scaling, Transform, MAX_SCALING, MIN_SCALING};
use super::edge::{connector, edge_connectors, graph_connectors, Pen};
use super::node;
use super::node::{on_band, react, Drawing, Node, Reaction, State};

verus! {

/// A change that the canvas asks its host to commit.
#[derive(Clone, Copy, Debug, PartialEq, Eq, Structural)]
pub enum Event {
    /// Node `index` was dropped at `offset`.
    NodeMoved { index: usize, offset: Vector },
    /// The zoom changed to the given scale factor and translation.
    Scaled(i32, Vector),
    /// The canvas was panned to the given translation.
    Translated(Vector),
}

/// The pan gesture of the canvas.
#[derive(Clone, Copy, Debug, PartialEq, Eq, Structural)]
pub enum Interaction {
    /// No pan is in progress.
    Idle,
    /// The canvas is being panned: the cursor went down at `started_at`, in
    /// screen space, and the canvas has since moved by `offset`, in
    /// canvas-local space.
    Translating { started_at: Point, offset: Vector },
}

impl Interaction {
    /// By how much the pan in progress moves the canvas; zero without one.
    pub open spec fn spec_offset(self) -> Vector {
        match self {
            Interaction::Idle => Vector::zero(),
            Interaction::Translating { offset, .. } => offset,
        }
    }

    pub fn offset(&self) -> (offset: Vector)
        ensures
            offset == self.spec_offset(),
    {
        match self {
            Interaction::Idle => Vector::zero(),
            Interaction::Translating { offset, .. } => *offset,
        }
    }
}

impl Default for Interaction {
    fn default() -> (interaction: Interaction)
        ensures
            interaction == Interaction::Idle,
    {
        Interaction::Idle
    }
}

/// The interaction state that outlives the rebuilds of the view: that of
/// the canvas, and that of each node by its place in the list.
#[derive(Debug, PartialEq, Eq)]
pub struct Tree {
    pub state: Interaction,
    pub children: Vec<State>,
}

/// What the canvas answers to one event.
#[derive(Debug, PartialEq, Eq)]
pub struct Outcome {
    /// Whether a node, the content of a node, or the canvas consumed the event.
    pub status: Status,
    /// What the host is asked to commit: first what the nodes emitted, in
    /// list order, then what the canvas itself emitted.
    pub emitted: Vec<Event>,
}

/// The canvas as the host describes it for a frame. `S` and `E` are the
/// types of styles that the theme offers for the nodes and for the canvas.
pub struct Editor<C, S = theme::Node, E = theme::Node> {
    /// The nodes, in the order that gives each its index.
    pub nodes: Vec<Node<C, S>>,
    /// The committed scale factor.
    pub scaling: i32,
    /// The committed translation.
    pub translation: Vector,
    /// The largest extent a node may take.
    pub max_node_size: Size,
    /// The style in which the canvas is drawn; in the built-in theme the
    /// canvas is styled by the same selector as its nodes.
    pub style: E,
}

/// What a renderer is asked to draw for the canvas, in drawing order.
#[derive(Debug, PartialEq, Eq)]
pub struct Scene {
    /// The box of the canvas with its background and border.
    pub background: Quad,
    /// The box that everything below is clipped to: the box of the canvas
    /// drawn in by one pixel.
    pub clip: Rectangle,
    /// By how much the nodes are moved before they are scaled: the committed
    /// translation and the pan in progress.
    pub translation: Vector,
    /// The scale factor applied to the nodes.
    pub scaling: i32,
    /// The nodes, in list order.
    pub nodes: Vec<Drawing>,
    /// The edges, drawn over the nodes and not scaled with them; their
    /// points count from the top-left corner of `clip`.
    pub connectors: Vec<Connector>,
}

/// The box of each node as it shows: where the layout put it, moved by the
/// drag in progress if there is one.
pub open spec fn adjusted_bounds(states: Seq<State>, layouts: Seq<NodeLayout>) -> Seq<Rectangle> {
    Seq::new(layouts.len(), |i: int| states[i].spec_adjusted_bounds(layouts[i].bounds))
}

/// The node states after a rebuild of the view with `count` nodes: a state
/// is kept at its place, states beyond the new count are dropped, and new
/// places start idle.
pub open spec fn reconciled(before: Seq<State>, count: nat) -> Seq<State> {
    Seq::new(
        count,
        |i: int|
            if i < before.len() {
                before[i]
            } else {
                State::Idle
            },
    )
}

/// The smallest of four counts.
pub open spec fn least(a: int, b: int, c: int, d: int) -> int {
    let ab = if a <= b { a } else { b };
    let cd = if c <= d { c } else { d };
    if ab <= cd { ab } else { cd }
}

/// What the node at place `i` makes of `event`, with the cursor at
/// `cursor` in canvas-local space.
pub open spec fn child_reaction(
    offsets: Seq<Vector>,
    states: Seq<State>,
    layouts: Seq<NodeLayout>,
    contents: Seq<Status>,
    event: Input,
    cursor: Point,
    i: int,
) -> Reaction {
    react(
        states[i],
        offsets[i],
        i as usize,
        event,
        on_band(layouts[i], cursor),
        cursor,
        contents[i],
    )
}

/// Whether any of the first `upto` nodes consumed the event.
pub open spec fn children_status(
    offsets: Seq<Vector>,
    states: Seq<State>,
    layouts: Seq<NodeLayout>,
    contents: Seq<Status>,
    event: Input,
    cursor: Point,
    upto: int,
) -> Status
    decreases upto,
{
    if upto <= 0 {
        Status::Ignored
    } else {
        children_status(offsets, states, layouts, contents, event, cursor, upto - 1).spec_merge(
            child_reaction(offsets, states, layouts, contents, event, cursor, upto - 1).status,
        )
    }
}

/// What the first `upto` nodes emitted, in list order.
pub open spec fn children_emitted(
    offsets: Seq<Vector>,
    states: Seq<State>,
    layouts: Seq<NodeLayout>,
    contents: Seq<Status>,
    event: Input,
    cursor: Point,
    upto: int,
) -> Seq<Event>
    decreases upto,
{
    if upto <= 0 {
        Seq::empty()
    } else {
        let before = children_emitted(offsets, states, layouts, contents, event, cursor, upto - 1);
        match child_reaction(offsets, states, layouts, contents, event, cursor, upto - 1).emitted {
            Some(e) => before.push(e),
            None => before,
        }
    }
}

/// Whether a turn of the wheel by `y` changes the scale: not when the
/// scale already stands at the bound in that direction.
pub open spec fn scroll_applies(scaling: int, y: int) -> bool {
    (y < 0 && scaling > MIN_SCALING) || (y > 0 && scaling < MAX_SCALING)
}

/// The old scale times `1 + y / 15`, rounded away from the old scale: up
/// for a turn upwards and down for a turn downwards, so that no turn is
/// lost to rounding.
pub open spec fn spec_zoomed_raw(scaling: int, y: int) -> int {
    let steps = 15 * UNIT;
    if y > 0 {
        (scaling * (steps + y) + (steps - 1)) / steps
    } else {
        scaling * (steps + y) / steps
    }
}

/// The scale after a turn of the wheel by `y`: the old scale times
/// `1 + y / 15`, rounded away from the old scale and kept within the
/// accepted zoom range.
pub open spec fn spec_zoomed_scaling(scaling: int, y: int) -> int {
    let raw = spec_zoomed_raw(scaling, y);
    if raw < MIN_SCALING {
        MIN_SCALING as int
    } else if raw > MAX_SCALING {
        MAX_SCALING as int
    } else {
        raw
    }
}

/// One coordinate of the translation after a zoom from `scaling` to `zoomed`
/// with the cursor at `cursor`, in screen space: the old translation less
/// `cursor * (zoomed - scaling) / scaling^2`.
pub open spec fn spec_anchored(translation: int, cursor: int, scaling: int, zoomed: int) -> int {
    translation - cursor * (zoomed - scaling) * UNIT / (scaling * scaling)
}

/// The translation after such a zoom.
pub open spec fn spec_zoomed_translation(
    translation: Vector,
    cursor: Point,
    scaling: int,
    zoomed: int,
) -> Vector {
    Vector {
        x: saturate(spec_anchored(translation.x as int, cursor.x as int, scaling, zoomed)),
        y: saturate(spec_anchored(translation.y as int, cursor.y as int, scaling, zoomed)),
    }
}

/// By how much a pan has moved the canvas once the cursor, which went down
/// at `started_at`, stands at `position`: their distance on screen divided
/// by the scale.
pub open spec fn spec_pan_offset(position: Point, started_at: Point, scaling: int) -> Vector {
    Vector {
        x: saturate(spec_unscaled(position.x - started_at.x, scaling)),
        y: saturate(spec_unscaled(position.y - started_at.y, scaling)),
    }
}

/// What the gesture recogniser of the canvas makes of an event.
pub struct Gesture {
    /// The pan state after the event.
    pub interaction: Interaction,
    /// Whether the canvas consumed the event.
    pub status: Status,
    /// What the canvas asks its host to commit, if anything.
    pub emitted: Option<Event>,
}

/// The transition function of the canvas's own gestures, for an event
/// that no node consumed while the cursor, at `cursor` in screen space,
/// lay within the canvas.
pub open spec fn recognize(
    interaction: Interaction,
    transform: Transform,
    event: Input,
    cursor: Point,
) -> Gesture {
    let ignored = Gesture { interaction, status: Status::Ignored, emitted: None };
    match event {
        Input::ButtonPressed(Button::Left) => match interaction {
            Interaction::Idle => Gesture {
                interaction: Interaction::Translating {
                    started_at: cursor,
                    offset: Vector::zero(),
                },
                status: Status::Captured,
                emitted: None,
            },
            _ => ignored,
        },
        Input::ButtonReleased(Button::Left) => match interaction {
            Interaction::Translating { offset, .. } => Gesture {
                interaction: Interaction::Idle,
                status: Status::Captured,
                emitted: Some(Event::Translated(transform.translation.spec_plus(offset))),
            },
            _ => ignored,
        },
        Input::CursorMoved { position } => match interaction {
            Interaction::Translating { started_at, .. } => Gesture {
                interaction: Interaction::Translating {
                    started_at,
                    offset: spec_pan_offset(position, started_at, transform.scaling as int),
                },
                status: Status::Captured,
                emitted: None,
            },
            _ => ignored,
        },
        Input::WheelScrolled { y } => if scroll_applies(transform.scaling as int, y as int) {
            let zoomed = spec_zoomed_scaling(transform.scaling as int, y as int);
            Gesture {
                interaction,
                status: Status::Captured,
                emitted: Some(
                    Event::Scaled(
                        zoomed as i32,
                        spec_zoomed_translation(
                            transform.translation,
                            cursor,
                            transform.scaling as int,
                            zoomed,
                        ),
                    ),
                ),
            }
        } else {
            ignored
        },
        _ => ignored,
    }
}

/// The scale and the translation after a turn of the wheel by `y` with the
/// cursor at `cursor`, in screen space.
pub fn zoom(transform: Transform, y: i32, cursor: Point) -> (zoomed: (i32, Vector))
    requires
        transform.wf(),
    ensures
        zoomed.0 == spec_zoomed_scaling(transform.scaling as int, y as int),
        zoomed.1 == spec_zoomed_translation(
            transform.translation,
            cursor,
            transform.scaling as int,
            zoomed.0 as int,
        ),
        valid_scaling(zoomed.0 as int),
        y > 0 && transform.scaling < MAX_SCALING ==> zoomed.0 > transform.scaling,
        y < 0 && transform.scaling > MIN_SCALING ==> zoomed.0 < transform.scaling,
        y == 0 ==> zoomed.0 == transform.scaling,
{
    let old_scaling: i64 = transform.scaling as i64;
    let steps: i64 = 15 * (UNIT as i64);
    let factor: i64 = steps + y as i64;
    assert(-0x2000_0000_0000 <= old_scaling * factor <= 0x2000_0000_0000) by (nonlinear_arith)
        requires
            100 <= old_scaling <= 5000,
            -0x1_0000_0000 <= factor <= 0x1_0000_0000,
    ;
    let product: i64 = old_scaling * factor;
    let raw: i64 = if y > 0 {
        div_floor(product + (steps - 1), steps)
    } else {
        div_floor(product, steps)
    };
    proof {
        lemma_zoom_makes_progress(transform.scaling as int, y as int);
    }
    let scaling: i64 = if raw < MIN_SCALING as i64 {
        MIN_SCALING as i64
    } else if raw > MAX_SCALING as i64 {
        MAX_SCALING as i64
    } else {
        raw
    };
    let delta: i64 = scaling - old_scaling;
    assert(10000 <= old_scaling * old_scaling <= 25000000) by (nonlinear_arith)
        requires
            100 <= old_scaling <= 5000,
    ;
    let square: i64 = old_scaling * old_scaling;
    let x = anchor(transform.translation.x, cursor.x, delta, square);
    let y = anchor(transform.translation.y, cursor.y, delta, square);
    (scaling as i32, Vector { x, y })
}

/// One coordinate of the translation after a zoom by `delta`.
fn anchor(translation: i32, cursor: i32, delta: i64, square: i64) -> (anchored: i32)
    requires
        -5000 <= delta <= 5000,
        0 < square,
    ensures
        anchored == saturate(translation - cursor * delta * UNIT / (square as int)),
{
    let c: i64 = cursor as i64;
    assert(-0x1_0000_0000 * 5000 <= c * delta <= 0x1_0000_0000 * 5000) by (nonlinear_arith)
        requires
            -0x1_0000_0000 <= c <= 0x1_0000_0000,
            -5000 <= delta <= 5000,
    ;
    let product: i64 = c * delta;
    assert(-0x1_0000_0000 * 5000000 <= product * UNIT <= 0x1_0000_0000 * 5000000)
        by (nonlinear_arith)
        requires
            -0x1_0000_0000 * 5000 <= product <= 0x1_0000_0000 * 5000,
            UNIT == 1000,
    ;
    let numerator: i64 = product * (UNIT as i64);
    proof {
        crate::transform::lemma_div_floor_bounds(numerator as int, square as int);
    }
    let shift: i64 = div_floor(numerator, square);
    saturating(translation as i64 - shift)
}

impl<C, S: Copy> Editor<C, S, theme::Node> {
    /// A canvas over `nodes` in the default style, at scale one, not
    /// translated, whose nodes may take up to 300 by 300 pixels.
    pub fn new(nodes: Vec<Node<C, S>>) -> (editor: Editor<C, S, theme::Node>)
        ensures
            editor.nodes == nodes,
            editor.scaling == UNIT,
            editor.translation == Vector::zero(),
            editor.max_node_size == (Size { width: 300_000, height: 300_000 }),
            editor.style == theme::Node::Default,
            editor.wf(),
    {
        Editor {
            nodes,
            scaling: UNIT,
            translation: Vector::zero(),
            max_node_size: Size { width: 300_000, height: 300_000 },
            style: theme::Node::Default,
        }
    }

}

impl<C, S: Copy, E: Copy> Editor<C, S, E> {
    /// The scale factor lies within the accepted zoom range.
    pub open spec fn wf(&self) -> bool {
        valid_scaling(self.scaling as int)
    }

    /// The same canvas in another style, which may be a style of another
    /// theme.
    pub fn style<R>(self, style: R) -> (editor: Editor<C, S, R>)
        ensures
            editor.nodes == self.nodes,
            editor.scaling == self.scaling,
            editor.translation == self.translation,
            editor.max_node_size == self.max_node_size,
            editor.style == style,
    {
        Editor {
            nodes: self.nodes,
            scaling: self.scaling,
            translation: self.translation,
            max_node_size: self.max_node_size,
            style,
        }
    }

    /// The same canvas at the committed scale factor `scaling`.
    pub fn scaling(self, scaling: i32) -> (editor: Editor<C, S, E>)
        requires
            valid_scaling(scaling as int),
        ensures
            editor.nodes == self.nodes,
            editor.scaling == scaling,
            editor.translation == self.translation,
            editor.max_node_size == self.max_node_size,
            editor.style == self.style,
            editor.wf(),
    {
        let mut editor = self;
        editor.scaling = scaling;
        editor
    }

    /// The same canvas at the committed translation `translation`.
    pub fn translation(self, translation: Vector) -> (editor: Editor<C, S, E>)
        ensures
            editor.nodes == self.nodes,
            editor.scaling == self.scaling,
            editor.translation == translation,
            editor.max_node_size == self.max_node_size,
            editor.style == self.style,
    {
        let mut editor = self;
        editor.translation = translation;
        editor
    }

    /// The committed transform.
    pub open spec fn spec_transformation(&self) -> Transform {
        Transform { scaling: self.scaling, translation: self.translation }
    }

    pub fn transformation(&self) -> (transform: Transform)
        ensures
            transform == self.spec_transformation(),
    {
        Transform { scaling: self.scaling, translation: self.translation }
    }

    /// The canvas-local position of a cursor given in screen space.
    pub open spec fn spec_transform_cursor(&self, cursor_position: Point) -> Point {
        self.spec_transformation().spec_invert(cursor_position)
    }

    pub fn transform_cursor(&self, cursor_position: Point) -> (local: Point)
        requires
            self.wf(),
        ensures
            local == self.spec_transform_cursor(cursor_position),
    {
        self.transformation().invert(cursor_position)
    }

    /// The committed positions of the nodes, in list order.
    pub open spec fn spec_offsets(&self) -> Seq<Vector> {
        Seq::new(self.nodes@.len(), |i: int| self.nodes@[i].offset)
    }

    /// The limits under which each node is laid out.
    pub fn node_limits(&self) -> (limits: Limits)
        ensures
            limits == (Limits { min: Size::zero(), max: self.max_node_size }),
    {
        Limits::new(Size::zero(), self.max_node_size)
    }

    /// The state of a canvas that was never interacted with.
    pub fn state(&self) -> (interaction: Interaction)
        ensures
            interaction == Interaction::Idle,
    {
        Interaction::Idle
    }

    /// Fresh states for the nodes: one for each, all idle.
    pub fn children(&self) -> (states: Vec<State>)
        ensures
            states@.len() == self.nodes@.len(),
            forall|i: int| 0 <= i < states@.len() ==> states@[i] == State::Idle,
    {
        let mut states: Vec<State> = Vec::new();
        let mut i: usize = 0;
        while i < self.nodes.len()
            invariant
                i <= self.nodes@.len(),
                states@.len() == i,
                forall|j: int| 0 <= j < states@.len() ==> states@[j] == State::Idle,
            decreases self.nodes@.len() - i,
        {
            states.push(State::Idle);
            i += 1;
        }
        states
    }

    /// Matches the persisted states to the nodes of this frame, by place.
    pub fn diff(&self, tree: &mut Tree)
        ensures
            final(tree).state == old(tree).state,
            final(tree).children@ == reconciled(old(tree).children@, self.nodes@.len()),
    {
        let count = self.nodes.len();
        if tree.children.len() > count {
            tree.children.truncate(count);
        }
        while tree.children.len() < count
            invariant
                count == self.nodes@.len(),
                tree.state == old(tree).state,
                tree.children@.len() <= count,
                old(tree).children@.len() <= tree.children@.len() || tree.children@.len() == count,
                forall|j: int|
                    0 <= j < tree.children@.len() ==> tree.children@[j] == reconciled(
                        old(tree).children@,
                        count as nat,
                    )[j],
            decreases count - tree.children@.len(),
        {
            tree.children.push(State::Idle);
        }
    }

    /// Where the canvas and its nodes lie: the canvas fills `fill`, and the
    /// node at place `i` wraps content of the extent `contents[i]`.
    /// Positions are relative to the top-left corner of the canvas.
    pub fn layout(&self, fill: Size, contents: &Vec<Size>) -> (layout: Layout)
        ensures
            layout.bounds == (Rectangle { x: 0, y: 0, width: fill.width, height: fill.height }),
            layout.children@.len() == if self.nodes@.len() <= contents@.len() {
                self.nodes@.len()
            } else {
                contents@.len()
            },
            forall|i: int|
                0 <= i < layout.children@.len() ==> layout.children@[i]
                    == self.nodes@[i].spec_layout(contents@[i]),
    {
        let count = if self.nodes.len() <= contents.len() {
            self.nodes.len()
        } else {
            contents.len()
        };
        let mut children: Vec<NodeLayout> = Vec::new();
        let mut i: usize = 0;
        while i < count
            invariant
                i <= count,
                count <= self.nodes@.len(),
                count <= contents@.len(),
                children@.len() == i,
                forall|j: int|
                    0 <= j < children@.len() ==> children@[j] == self.nodes@[j].spec_layout(
                        contents@[j],
                    ),
            decreases count - i,
        {
            children.push(self.nodes[i].layout(contents[i]));
            i += 1;
        }
        Layout { bounds: Rectangle { x: 0, y: 0, width: fill.width, height: fill.height }, children }
    }

    /// Routes one event: first to every node in list order, then, if no
    /// node consumed it and the cursor lies within the canvas, to the pan
    /// and zoom gestures of the canvas itself.
    ///
    /// `cursor_position` is in screen space; the nodes see it in
    /// canvas-local space. `contents[i]` is what the content of node `i`
    /// answered to the event; it is read only for a node that is not being
    /// dragged. Nodes without a state, a layout or an answer are skipped.
    ///
    /// A scale that is emitted answers a turn of the wheel, differs from
    /// the committed scale in the direction of the turn, and lies within
    /// the accepted zoom range.
    pub fn on_event(
        &self,
        tree: &mut Tree,
        event: Input,
        layout: &Layout,
        cursor_position: Point,
        contents: &Vec<Status>,
    ) -> (out: Outcome)
        requires
            self.wf(),
        ensures
            ({
                let routed = least(
                    self.nodes@.len() as int,
                    old(tree).children@.len() as int,
                    layout.children@.len() as int,
                    contents@.len() as int,
                );
                let local = self.spec_transform_cursor(cursor_position);
                let offsets = self.spec_offsets();
                let before = old(tree).children@;
                let status = children_status(
                    offsets,
                    before,
                    layout.children@,
                    contents@,
                    event,
                    local,
                    routed,
                );
                let emitted = children_emitted(
                    offsets,
                    before,
                    layout.children@,
                    contents@,
                    event,
                    local,
                    routed,
                );
                let own = recognize(
                    old(tree).state,
                    self.spec_transformation(),
                    event,
                    cursor_position,
                );
                &&& final(tree).children@.len() == before.len()
                &&& forall|i: int|
                    0 <= i < routed ==> final(tree).children@[i] == child_reaction(
                        offsets,
                        before,
                        layout.children@,
                        contents@,
                        event,
                        local,
                        i,
                    ).state
                &&& forall|i: int|
                    routed <= i < before.len() ==> final(tree).children@[i] == before[i]
                &&& if status is Ignored && layout.bounds.spec_contains(cursor_position) {
                    &&& final(tree).state == own.interaction
                    &&& out.status == own.status
                    &&& out.emitted@ == match own.emitted {
                        Some(e) => emitted.push(e),
                        None => emitted,
                    }
                } else {
                    &&& final(tree).state == old(tree).state
                    &&& out.status == status
                    &&& out.emitted@ == emitted
                }
            }),
            forall|k: int|
                0 <= k < out.emitted@.len() ==> (#[trigger] out.emitted@[k] matches Event::Scaled(
                    zoomed,
                    _,
                ) ==> {
                    &&& event matches Input::WheelScrolled { y }
                    &&& y != 0
                    &&& y > 0 ==> self.scaling < zoomed <= MAX_SCALING
                    &&& y < 0 ==> MIN_SCALING <= zoomed < self.scaling
                }),
    {
        let contains_cursor = layout.bounds.contains(cursor_position);
        let local = self.transform_cursor(cursor_position);
        let mut routed = self.nodes.len();
        if tree.children.len() < routed {
            routed = tree.children.len();
        }
        if layout.children.len() < routed {
            routed = layout.children.len();
        }
        if contents.len() < routed {
            routed = contents.len();
        }
        let ghost offsets = self.spec_offsets();
        let ghost before = tree.children@;
        proof {
            lemma_nodes_emit_only_moves(
                offsets,
                before,
                layout.children@,
                contents@,
                event,
                local,
                routed as int,
            );
            if let Input::WheelScrolled { y } = event {
                lemma_zoom_makes_progress(self.scaling as int, y as int);
            }
        }
        let mut status = Status::Ignored;
        let mut emitted: Vec<Event> = Vec::new();
        let mut i: usize = 0;
        while i < routed
            invariant
                i <= routed,
                routed <= self.nodes@.len(),
                routed <= before.len(),
                routed <= layout.children@.len(),
                routed <= contents@.len(),
                offsets == self.spec_offsets(),
                local == self.spec_transform_cursor(cursor_position),
                tree.state == old(tree).state,
                tree.children@.len() == before.len(),
                forall|j: int|
                    0 <= j < i ==> tree.children@[j] == child_reaction(
                        offsets,
                        before,
                        layout.children@,
                        contents@,
                        event,
                        local,
                        j,
                    ).state,
                forall|j: int| i <= j < before.len() ==> tree.children@[j] == before[j],
                status == children_status(
                    offsets,
                    before,
                    layout.children@,
                    contents@,
                    event,
                    local,
                    i as int,
                ),
                emitted@ == children_emitted(
                    offsets,
                    before,
                    layout.children@,
                    contents@,
                    event,
                    local,
                    i as int,
                ),
            decreases routed - i,
        {
            let mut state = tree.children[i];
            let (answer, asked) = self.nodes[i].on_event(
                &mut state,
                event,
                &layout.children[i],
                local,
                contents[i],
                i,
            );
            tree.children.set(i, state);
            status = status.merge(answer);
            match asked {
                Some(e) => {
                    emitted.push(e);
                },
                None => {},
            }
            i += 1;
        }
        if !contains_cursor {
            return Outcome { status, emitted };
        }
        match status {
            Status::Captured => {
                return Outcome { status, emitted };
            },
            Status::Ignored => {},
        }
        match event {
            Input::ButtonPressed(Button::Left) => match tree.state {
                Interaction::Idle => {
                    tree.state = Interaction::Translating {
                        started_at: cursor_position,
                        offset: Vector::zero(),
                    };
                    Outcome { status: Status::Captured, emitted }
                },
                _ => Outcome { status: Status::Ignored, emitted },
            },
            Input::ButtonReleased(Button::Left) => match tree.state {
                Interaction::Translating { offset, .. } => {
                    emitted.push(Event::Translated(self.translation.plus(offset)));
                    tree.state = Interaction::Idle;
                    Outcome { status: Status::Captured, emitted }
                },
                _ => Outcome { status: Status::Ignored, emitted },
            },
            Input::CursorMoved { position } => match tree.state {
                Interaction::Translating { started_at, .. } => {
                    let offset = Vector {
                        x: saturating(
                            unscaled(position.x as i64 - started_at.x as i64, self.scaling),
                        ),
                        y: saturating(
                            unscaled(position.y as i64 - started_at.y as i64, self.scaling),
                        ),
                    };
                    tree.state = Interaction::Translating { started_at, offset };
                    Outcome { status: Status::Captured, emitted }
                },
                _ => Outcome { status: Status::Ignored, emitted },
            },
            Input::WheelScrolled { y } => {
                if y < 0 && self.scaling > MIN_SCALING || y > 0 && self.scaling < MAX_SCALING {
                    let (scaling, translation) = zoom(self.transformation(), y, cursor_position);
                    emitted.push(Event::Scaled(scaling, translation));
                    Outcome { status: Status::Captured, emitted }
                } else {
                    Outcome { status: Status::Ignored, emitted }
                }
            },
            _ => Outcome { status: Status::Ignored, emitted },
        }
    }

    /// The targets of the edges of each node, in list order.
    pub open spec fn spec_edges(&self) -> Seq<Seq<usize>> {
        Seq::new(self.nodes@.len(), |i: int| self.nodes@[i].edges@)
    }

    /// What the connectors of a frame are drawn with.
    pub open spec fn spec_pen(&self, interaction: Interaction, bounds: Rectangle, appearance: Appearance) -> Pen {
        Pen {
            transform: self.spec_transformation(),
            pan: interaction.spec_offset(),
            frame: bounds.spec_inset(UNIT).spec_position(),
            width: appearance.connector_width,
            color: appearance.connector_color,
        }
    }

    /// Whether every edge that is drawn finds a state and a box at both its
    /// ends, given how many states and boxes there are.
    pub open spec fn spec_drawable(&self, states: int, boxes: int) -> bool {
        forall|from: int, k: int|
            0 <= from < self.nodes@.len() && 0 <= k < self.nodes@[from].edges@.len()
                && #[trigger] self.nodes@[from].edges@[k] < self.nodes@.len() ==> {
                &&& from < states
                &&& from < boxes
                &&& self.nodes@[from].edges@[k] < states
                &&& self.nodes@[from].edges@[k] < boxes
            }
    }

    /// Tells whether [`Editor::draw`] can be called with `tree` and `layout`.
    pub fn drawable(&self, tree: &Tree, layout: &Layout) -> (ok: bool)
        ensures
            ok == self.spec_drawable(tree.children@.len() as int, layout.children@.len() as int),
    {
        let count = self.nodes.len();
        let states = tree.children.len();
        let boxes = layout.children.len();
        let mut from: usize = 0;
        while from < count
            invariant
                from <= count,
                count == self.nodes@.len(),
                states == tree.children@.len(),
                boxes == layout.children@.len(),
                forall|i: int, k: int|
                    0 <= i < from && 0 <= k < self.nodes@[i].edges@.len()
                        && #[trigger] self.nodes@[i].edges@[k] < count ==> {
                        &&& i < states
                        &&& i < boxes
                        &&& self.nodes@[i].edges@[k] < states
                        &&& self.nodes@[i].edges@[k] < boxes
                    },
            decreases count - from,
        {
            let targets = &self.nodes[from].edges;
            let mut k: usize = 0;
            while k < targets.len()
                invariant
                    k <= targets@.len(),
                    from < count,
                    count == self.nodes@.len(),
                    states == tree.children@.len(),
                    boxes == layout.children@.len(),
                    targets@ == self.nodes@[from as int].edges@,
                    forall|j: int|
                        0 <= j < k && #[trigger] targets@[j] < count ==> {
                            &&& from < states
                            &&& from < boxes
                            &&& targets@[j] < states
                            &&& targets@[j] < boxes
                        },
                decreases targets@.len() - k,
            {
                let to = targets[k];
                if to < count && !(from < states && from < boxes && to < states && to < boxes) {
                    assert(self.nodes@[from as int].edges@[k as int] == to);
                    return false;
                }
                k += 1;
            }
            from += 1;
        }
        true
    }

    /// Composes what is drawn for a frame: the background of the canvas,
    /// then every node under the transform of the canvas, then one
    /// connector for every edge that leads to a node of the list.
    ///
    /// Nodes without a state or a box are not drawn; an edge that is drawn
    /// must find both at each of its ends. `text_color` is the colour of
    /// text where the look of a node names none.
    pub fn draw<T: StyleSheet<Style = E> + node::StyleSheet<Style = S>>(
        &self,
        tree: &Tree,
        theme: &T,
        text_color: Color,
        layout: &Layout,
        cursor_position: Point,
    ) -> (scene: Scene)
        requires
            self.wf(),
            self.spec_drawable(tree.children@.len() as int, layout.children@.len() as int),
        ensures
            ({
                let appearance = <T as StyleSheet>::spec_appearance(theme, self.style);
                let local = self.spec_transform_cursor(cursor_position);
                &&& scene.background == (Quad {
                    bounds: layout.bounds,
                    border_radius: appearance.border_radius,
                    border_width: appearance.border_width,
                    border_color: appearance.border_color,
                    background: match appearance.background {
                        Some(background) => background,
                        None => Background::Color(Color::transparent()),
                    },
                })
                &&& scene.clip == layout.bounds.spec_inset(UNIT)
                &&& scene.translation == self.translation.spec_plus(tree.state.spec_offset())
                &&& scene.scaling == self.scaling
                &&& scene.nodes@.len() == least(
                    self.nodes@.len() as int,
                    tree.children@.len() as int,
                    layout.children@.len() as int,
                    layout.children@.len() as int,
                )
                &&& forall|i: int|
                    0 <= i < scene.nodes@.len() ==> scene.nodes@[i] == self.nodes@[i].spec_draw(
                        tree.children@[i],
                        theme,
                        text_color,
                        layout.children@[i],
                        local,
                    )
                &&& scene.connectors@ == graph_connectors(
                    self.spec_edges(),
                    self.nodes@.len() as int,
                    adjusted_bounds(tree.children@, layout.children@),
                    self.spec_pen(tree.state, layout.bounds, appearance),
                )
            }),
    {
        let local = self.transform_cursor(cursor_position);
        let appearance = <T as StyleSheet>::appearance(theme, self.style);
        let background = Quad {
            bounds: layout.bounds,
            border_radius: appearance.border_radius,
            border_width: appearance.border_width,
            border_color: appearance.border_color,
            background: match appearance.background {
                Some(background) => background,
                None => Background::Color(Color::transparent()),
            },
        };
        let clip = layout.bounds.inset(UNIT);
        let count = self.nodes.len();
        let mut shown = count;
        if tree.children.len() < shown {
            shown = tree.children.len();
        }
        if layout.children.len() < shown {
            shown = layout.children.len();
        }
        let mut nodes: Vec<Drawing> = Vec::new();
        let mut i: usize = 0;
        while i < shown
            invariant
                i <= shown,
                shown <= self.nodes@.len(),
                shown <= tree.children@.len(),
                shown <= layout.children@.len(),
                nodes@.len() == i,
                forall|j: int|
                    0 <= j < i ==> nodes@[j] == self.nodes@[j].spec_draw(
                        tree.children@[j],
                        theme,
                        text_color,
                        layout.children@[j],
                        local,
                    ),
            decreases shown - i,
        {
            nodes.push(
                self.nodes[i].draw(&tree.children[i], theme, text_color, &layout.children[i], local),
            );
            i += 1;
        }
        let pen = Pen {
            transform: self.transformation(),
            pan: tree.state.offset(),
            frame: clip.position(),
            width: appearance.connector_width,
            color: appearance.connector_color,
        };
        let ghost edges = self.spec_edges();
        let ghost bounds = adjusted_bounds(tree.children@, layout.children@);
        let mut connectors: Vec<Connector> = Vec::new();
        let mut from: usize = 0;
        while from < count
            invariant
                from <= count,
                count == self.nodes@.len(),
                self.spec_drawable(tree.children@.len() as int, layout.children@.len() as int),
                pen.transform.wf(),
                edges == self.spec_edges(),
                bounds == adjusted_bounds(tree.children@, layout.children@),
                connectors@ == graph_connectors(edges, from as int, bounds, pen),
            decreases count - from,
        {
            let targets = &self.nodes[from].edges;
            let ghost done = connectors@;
            let mut k: usize = 0;
            while k < targets.len()
                invariant
                    k <= targets@.len(),
                    from < count,
                    count == self.nodes@.len(),
                    self.spec_drawable(tree.children@.len() as int, layout.children@.len() as int),
                    pen.transform.wf(),
                    edges == self.spec_edges(),
                    targets@ == edges[from as int],
                    targets@ == self.nodes@[from as int].edges@,
                    bounds == adjusted_bounds(tree.children@, layout.children@),
                    connectors@ == done + edge_connectors(
                        targets@,
                        k as int,
                        from as int,
                        count as nat,
                        bounds,
                        pen,
                    ),
                decreases targets@.len() - k,
            {
                let to = targets[k];
                if to < count {
                    assert(self.nodes@[from as int].edges@[k as int] == to);
                    let from_bounds = tree.children[from].adjusted_bounds(
                        layout.children[from].bounds,
                    );
                    let to_bounds = tree.children[to].adjusted_bounds(layout.children[to].bounds);
                    connectors.push(connector(from_bounds, to_bounds, &pen));
                }
                k += 1;
            }
            from += 1;
        }
        Scene {
            background,
            clip,
            translation: self.translation.plus(tree.state.offset()),
            scaling: self.scaling,
            nodes,
            connectors,
        }
    }

    /// The cursor hint of the canvas: the hint of highest priority among
    /// its nodes, and the idle hint where it has none. Nodes without a
    /// state or a layout give no hint.
    pub fn mouse_interaction(&self, tree: &Tree, layout: &Layout) -> (hint: Affordance)
        ensures
            ({
                let count = least(
                    self.nodes@.len() as int,
                    tree.children@.len() as int,
                    layout.children@.len() as int,
                    layout.children@.len() as int,
                );
                &&& forall|i: int|
                    0 <= i < count ==> tree.children@[i].spec_affordance().spec_priority()
                        <= hint.spec_priority()
                &&& hint is Idle || exists|i: int|
                    0 <= i < count && tree.children@[i].spec_affordance() == hint
            }),
    {
        let mut count = self.nodes.len();
        if tree.children.len() < count {
            count = tree.children.len();
        }
        if layout.children.len() < count {
            count = layout.children.len();
        }
        let mut hint = Affordance::Idle;
        let mut i: usize = 0;
        while i < count
            invariant
                i <= count,
                count <= self.nodes@.len(),
                count <= tree.children@.len(),
                forall|j: int|
                    0 <= j < i ==> tree.children@[j].spec_affordance().spec_priority()
                        <= hint.spec_priority(),
                hint is Idle || exists|j: int|
                    0 <= j < i && tree.children@[j].spec_affordance() == hint,
            decreases count - i,
        {
            let offered = self.nodes[i].mouse_interaction(&tree.children[i]);
            hint = hint.max(offered);
            i += 1;
        }
        hint
    }
}

/// How the canvas looks: lengths in fixed-point units.
#[derive(Clone, Copy, Debug, PartialEq, Eq, Structural)]
pub struct Appearance {
    pub background: Option<Background>,
    pub border_radius: i32,
    pub border_width: i32,
    pub border_color: Color,
    pub connector_width: i32,
    pub connector_color: Color,
}

impl Default for Appearance {
    fn default() -> (appearance: Appearance)
        ensures
            appearance == (Appearance {
                background: None,
                border_radius: 0,
                border_width: 0,
                border_color: Color::spec_transparent(),
                connector_width: 1000,
                connector_color: Color::spec_black(),
            }),
    {
        Appearance {
            background: None,
            border_radius: 0,
            border_width: 0,
            border_color: Color::transparent(),
            connector_width: 1000,
            connector_color: Color::black(),
        }
    }
}

/// A theme that knows how the canvas looks.
pub trait StyleSheet {
    /// The styles the theme offers for the canvas.
    type Style: Default + Copy;

    /// The look of the canvas in the given style.
    spec fn spec_appearance(&self, style: Self::Style) -> Appearance;

    fn appearance(&self, style: Self::Style) -> (appearance: Appearance)
        ensures
            appearance == self.spec_appearance(style),
    ;
}

/// The scale after a turn of the wheel lies within the accepted zoom range.
pub proof fn lemma_zoom_stays_in_range(scaling: int, y: int)
    ensures
        valid_scaling(spec_zoomed_scaling(scaling, y)),
{
}

/// Every scale that the canvas asks its host to commit lies within the
/// accepted zoom range.
pub proof fn lemma_committed_scale_in_range(
    interaction: Interaction,
    transform: Transform,
    event: Input,
    cursor: Point,
)
    ensures
        match recognize(interaction, transform, event, cursor).emitted {
            Some(Event::Scaled(scaling, _)) => valid_scaling(scaling as int),
            _ => true,
        },
{
}

/// At a bound of the zoom range a turn of the wheel further in that
/// direction is not consumed and emits nothing. Every other turn is
/// consumed and emits a scale that differs from the old one in the
/// direction of the turn and lies within the accepted zoom range.
pub proof fn lemma_zoom_saturates(
    interaction: Interaction,
    transform: Transform,
    y: i32,
    cursor: Point,
)
    requires
        transform.wf(),
        y != 0,
    ensures
        ({
            let gesture = recognize(interaction, transform, Input::WheelScrolled { y }, cursor);
            let outward = (transform.scaling == MAX_SCALING && y > 0) || (transform.scaling
                == MIN_SCALING && y < 0);
            &&& outward ==> gesture.status is Ignored && gesture.emitted is None
            &&& !outward ==> {
                &&& gesture.status is Captured
                &&& gesture.emitted matches Some(Event::Scaled(zoomed, _))
                &&& y > 0 ==> transform.scaling < zoomed <= MAX_SCALING
                &&& y < 0 ==> MIN_SCALING <= zoomed < transform.scaling
            }
        }),
{
    lemma_zoom_makes_progress(transform.scaling as int, y as int);
}

/// Turning the wheel up never lowers the scale, turning it down never
/// raises it, and a wheel at rest leaves it alone.
pub proof fn lemma_zoom_follows_the_wheel(scaling: int, y: int)
    requires
        valid_scaling(scaling),
    ensures
        y >= 0 ==> spec_zoomed_scaling(scaling, y) >= scaling,
        y <= 0 ==> spec_zoomed_scaling(scaling, y) <= scaling,
{
    lemma_zoom_makes_progress(scaling, y);
}

/// Every turn of the wheel moves the scale, however small the turn: up by
/// at least one unit for a turn upwards, down by at least one unit for a
/// turn downwards, unless the scale already stands at the bound in that
/// direction, where it stays.
pub proof fn lemma_zoom_makes_progress(scaling: int, y: int)
    requires
        valid_scaling(scaling),
    ensures
        y > 0 && scaling < MAX_SCALING ==> scaling < spec_zoomed_scaling(scaling, y)
            <= MAX_SCALING,
        y < 0 && scaling > MIN_SCALING ==> MIN_SCALING <= spec_zoomed_scaling(scaling, y)
            < scaling,
        y > 0 && scaling == MAX_SCALING ==> spec_zoomed_scaling(scaling, y) == MAX_SCALING,
        y < 0 && scaling == MIN_SCALING ==> spec_zoomed_scaling(scaling, y) == MIN_SCALING,
        y == 0 ==> spec_zoomed_scaling(scaling, y) == scaling,
{
    let steps = 15 * UNIT;
    let exact = scaling * (steps + y);
    let raw = spec_zoomed_raw(scaling, y);
    assert(exact == scaling * steps + scaling * y) by (nonlinear_arith)
        requires
            exact == scaling * (steps + y),
    ;
    if y > 0 {
        // Rounded up, the quotient is not below the exact product.
        vstd::arithmetic::div_mod::lemma_fundamental_div_mod(exact + (steps - 1), steps);
        vstd::arithmetic::div_mod::lemma_mod_bound(exact + (steps - 1), steps);
        assert(scaling * y > 0) by (nonlinear_arith)
            requires
                scaling >= 100,
                y > 0,
        ;
        assert(steps * raw >= exact);
        assert(raw > scaling) by (nonlinear_arith)
            requires
                steps * raw >= scaling * steps + scaling * y,
                scaling * y > 0,
                steps == 15000,
        ;
    } else if y < 0 {
        // Rounded down, the quotient is not above the exact product.
        vstd::arithmetic::div_mod::lemma_fundamental_div_mod(exact, steps);
        vstd::arithmetic::div_mod::lemma_mod_bound(exact, steps);
        assert(scaling * y < 0) by (nonlinear_arith)
            requires
                scaling >= 100,
                y < 0,
        ;
        assert(steps * raw <= exact);
        assert(raw < scaling) by (nonlinear_arith)
            requires
                steps * raw <= scaling * steps + scaling * y,
                scaling * y < 0,
                steps == 15000,
        ;
    } else {
        assert(exact == scaling * steps);
        vstd::arithmetic::div_mod::lemma_fundamental_div_mod_converse(exact, steps, scaling, 0);
    }
}

/// The scale after `turns` equal turns of the wheel by `y`, each applied to
/// the scale that the one before committed.
pub open spec fn zoomed_repeatedly(scaling: int, y: int, turns: nat) -> int
    decreases turns,
{
    if turns == 0 {
        scaling
    } else {
        spec_zoomed_scaling(zoomed_repeatedly(scaling, y, (turns - 1) as nat), y)
    }
}

/// Turning the wheel the same way again and again, by however little,
/// brings the scale to the bound of the zoom range, where it stays: each
/// turn gains at least one unit, so 4900 turns are always enough.
pub proof fn lemma_repeated_zoom_reaches_the_bound(scaling: int, y: int, turns: nat)
    requires
        valid_scaling(scaling),
        y != 0,
    ensures
        valid_scaling(zoomed_repeatedly(scaling, y, turns)),
        y > 0 ==> zoomed_repeatedly(scaling, y, turns) == MAX_SCALING || zoomed_repeatedly(
            scaling,
            y,
            turns,
        ) >= scaling + turns,
        y < 0 ==> zoomed_repeatedly(scaling, y, turns) == MIN_SCALING || zoomed_repeatedly(
            scaling,
            y,
            turns,
        ) <= scaling - turns,
        turns >= MAX_SCALING - MIN_SCALING && y > 0 ==> zoomed_repeatedly(scaling, y, turns)
            == MAX_SCALING,
        turns >= MAX_SCALING - MIN_SCALING && y < 0 ==> zoomed_repeatedly(scaling, y, turns)
            == MIN_SCALING,
    decreases turns,
{
    if turns > 0 {
        let before = zoomed_repeatedly(scaling, y, (turns - 1) as nat);
        lemma_repeated_zoom_reaches_the_bound(scaling, y, (turns - 1) as nat);
        lemma_zoom_makes_progress(before, y);
    }
}

/// A zoom with the cursor on an axis of the screen leaves the translation
/// along the other axis alone, and so keeps the canvas-local coordinate
/// under the cursor: the zoom is anchored exactly at the screen origin.
pub proof fn lemma_zoom_anchored_at_origin(translation: int, scaling: int, zoomed: int)
    requires
        valid_scaling(scaling),
        valid_scaling(zoomed),
    ensures
        spec_anchored(translation, 0, scaling, zoomed) == translation,
        spec_unscaled(0, zoomed) - spec_anchored(translation, 0, scaling, zoomed) == spec_unscaled(
            0,
            scaling,
        ) - translation,
{
    assert(0 * (zoomed - scaling) * UNIT == 0);
    assert(0int / (scaling * scaling) == 0) by (nonlinear_arith)
        requires
            scaling >= 100,
    ;
    assert(0 * UNIT == 0);
    assert(0int / zoomed == 0) by (nonlinear_arith)
        requires
            zoomed >= 100,
    ;
    assert(0int / scaling == 0) by (nonlinear_arith)
        requires
            scaling >= 100,
    ;
}

/// By how much a zoom from `scaling` to `zoomed`, with the cursor at the
/// screen coordinate `cursor`, moves the canvas-local coordinate that lies
/// under the cursor.
pub open spec fn zoom_drift(translation: int, cursor: int, scaling: int, zoomed: int) -> int {
    (spec_unscaled(cursor, zoomed) - spec_anchored(translation, cursor, scaling, zoomed)) - (
    spec_unscaled(cursor, scaling) - translation)
}

/// A zoom is anchored at the cursor to first order in the change of scale:
/// the canvas-local coordinate under the cursor moves by
/// `cursor * (zoomed - scaling)^2 / (scaling^2 * zoomed)`, up to two units
/// of rounding. It stays in place where the cursor is at the origin of the
/// screen or the scale does not change.
pub proof fn lemma_zoom_drift(translation: int, cursor: int, scaling: int, zoomed: int)
    requires
        valid_scaling(scaling),
        valid_scaling(zoomed),
    ensures
        ({
            let drift = zoom_drift(translation, cursor, scaling, zoomed);
            let delta = zoomed - scaling;
            let scale = scaling * scaling * zoomed;
            &&& cursor * UNIT * delta * delta - 2 * scale < drift * scale
            &&& drift * scale < cursor * UNIT * delta * delta + scale
        }),
{
    let u = UNIT as int;
    let s = scaling;
    let z = zoomed;
    let d = z - s;
    let qa = (cursor * u) / z;
    let ra = (cursor * u) % z;
    let qb = (cursor * u) / s;
    let rb = (cursor * u) % s;
    let qd = (cursor * d * u) / (s * s);
    let rd = (cursor * d * u) % (s * s);
    assert(s * s >= 10000 && s * z > 0) by (nonlinear_arith)
        requires
            s >= 100,
            z >= 100,
    ;
    vstd::arithmetic::div_mod::lemma_fundamental_div_mod(cursor * u, z);
    vstd::arithmetic::div_mod::lemma_mod_bound(cursor * u, z);
    vstd::arithmetic::div_mod::lemma_fundamental_div_mod(cursor * u, s);
    vstd::arithmetic::div_mod::lemma_mod_bound(cursor * u, s);
    vstd::arithmetic::div_mod::lemma_fundamental_div_mod(cursor * d * u, s * s);
    vstd::arithmetic::div_mod::lemma_mod_bound(cursor * d * u, s * s);
    let drift = zoom_drift(translation, cursor, scaling, zoomed);
    assert(drift == qa - qb + qd);
    let ss = s * s;
    let sz = s * z;
    let scale = s * s * z;
    let cu = cursor * u;
    let cdu = cursor * d * u;
    assert(scale == ss * z && scale == s * sz) by (nonlinear_arith)
        requires
            scale == s * s * z,
            ss == s * s,
            sz == s * z,
    ;
    // Each quotient times the common denominator, in terms of its remainder.
    assert(qa * scale == cu * ss - ra * ss) by (nonlinear_arith)
        requires
            cu == z * qa + ra,
            scale == ss * z,
    ;
    assert(qb * scale == cu * sz - rb * sz) by (nonlinear_arith)
        requires
            cu == s * qb + rb,
            scale == s * sz,
    ;
    assert(qd * scale == cdu * z - rd * z) by (nonlinear_arith)
        requires
            cdu == ss * qd + rd,
            scale == ss * z,
    ;
    assert(drift * scale == qa * scale - qb * scale + qd * scale) by (nonlinear_arith)
        requires
            drift == qa - qb + qd,
    ;
    // The exact part is the square of the change of scale.
    assert(cdu == cu * d) by (nonlinear_arith)
        requires
            cdu == cursor * d * u,
            cu == cursor * u,
    ;
    assert(cu * ss - cu * sz + (cu * d) * z == cu * (d * d)) by (nonlinear_arith)
        requires
            ss == s * s,
            sz == s * z,
            d == z - s,
    ;
    assert(cursor * UNIT * d * d == cu * (d * d)) by (nonlinear_arith)
        requires
            cu == cursor * u,
            u == UNIT,
    ;
    // The remainders are what rounding adds.
    assert(0 <= ra * ss < scale) by (nonlinear_arith)
        requires
            0 <= ra < z,
            ss >= 10000,
            scale == ss * z,
    ;
    assert(0 <= rb * sz < scale) by (nonlinear_arith)
        requires
            0 <= rb < s,
            sz > 0,
            scale == s * sz,
    ;
    assert(0 <= rd * z < scale) by (nonlinear_arith)
        requires
            0 <= rd < ss,
            z >= 100,
            scale == ss * z,
    ;
}


/// A pan commits the distance the cursor went, divided by the scale.
///
/// On an idle canvas the button is pressed at `press`, the cursor moves to
/// `drop`, and the button is released: the press and the move emit nothing,
/// and the release emits one `Translated` whose translation is the old one
/// plus the distance on screen divided by the scale, and ends the pan. At
/// scale one this is the old translation plus `drop - press`, where the sums
/// fit the coordinate range.
pub proof fn lemma_pan_round_trip(
    transform: Transform,
    press: Point,
    drop: Point,
    cursor_at_move: Point,
    cursor_at_release: Point,
)
    requires
        transform.wf(),
    ensures
        ({
            let pressed = recognize(
                Interaction::Idle,
                transform,
                Input::ButtonPressed(Button::Left),
                press,
            );
            let panned = recognize(
                pressed.interaction,
                transform,
                Input::CursorMoved { position: drop },
                cursor_at_move,
            );
            let released = recognize(
                panned.interaction,
                transform,
                Input::ButtonReleased(Button::Left),
                cursor_at_release,
            );
            let offset = spec_pan_offset(drop, press, transform.scaling as int);
            &&& pressed.emitted is None
            &&& panned.emitted is None
            &&& released.emitted == Some(Event::Translated(transform.translation.spec_plus(offset)))
            &&& released.interaction is Idle
            &&& (transform.scaling == UNIT && i32::MIN <= drop.x - press.x <= i32::MAX && i32::MIN
                <= drop.y - press.y <= i32::MAX) ==> offset == (Vector {
                x: (drop.x - press.x) as i32,
                y: (drop.y - press.y) as i32,
            })
        }),
{
    assert((drop.x - press.x) * 1000 / 1000 == drop.x - press.x);
    assert((drop.y - press.y) * 1000 / 1000 == drop.y - press.y);
}

/// Matching the states to the nodes a second time changes nothing, and a
/// state that has a node keeps its place.
pub proof fn lemma_reconciled_once_is_enough(before: Seq<State>, count: nat)
    ensures
        reconciled(reconciled(before, count), count) == reconciled(before, count),
        forall|i: int|
            0 <= i < count && i < before.len() ==> reconciled(before, count)[i] == before[i],
{
}

/// Whether any of the first `upto` nodes consumed the event, said without
/// recursion.
pub proof fn lemma_children_status(
    offsets: Seq<Vector>,
    states: Seq<State>,
    layouts: Seq<NodeLayout>,
    contents: Seq<Status>,
    event: Input,
    cursor: Point,
    upto: int,
)
    ensures
        children_status(offsets, states, layouts, contents, event, cursor, upto) is Captured
            <==> exists|i: int|
            0 <= i < upto && (#[trigger] child_reaction(
                offsets,
                states,
                layouts,
                contents,
                event,
                cursor,
                i,
            )).status is Captured,
    decreases upto,
{
    if upto > 0 {
        lemma_children_status(offsets, states, layouts, contents, event, cursor, upto - 1);
        let last = child_reaction(offsets, states, layouts, contents, event, cursor, upto - 1);
        if children_status(offsets, states, layouts, contents, event, cursor, upto) is Captured {
            if last.status is Captured {
            } else {
                let i = choose|i: int|
                    0 <= i < upto - 1 && (#[trigger] child_reaction(
                        offsets,
                        states,
                        layouts,
                        contents,
                        event,
                        cursor,
                        i,
                    )).status is Captured;
                assert(0 <= i < upto);
            }
        }
    }
}


/// Nodes ask their host for nothing but to move them: every event that the
/// first `upto` nodes emit is a `NodeMoved`.
pub proof fn lemma_nodes_emit_only_moves(
    offsets: Seq<Vector>,
    states: Seq<State>,
    layouts: Seq<NodeLayout>,
    contents: Seq<Status>,
    event: Input,
    cursor: Point,
    upto: int,
)
    ensures
        forall|k: int|
            0 <= k < children_emitted(
                offsets,
                states,
                layouts,
                contents,
                event,
                cursor,
                upto,
            ).len() ==> #[trigger] children_emitted(
                offsets,
                states,
                layouts,
                contents,
                event,
                cursor,
                upto,
            )[k] is NodeMoved,
    decreases upto,
{
    if upto > 0 {
        lemma_nodes_emit_only_moves(offsets, states, layouts, contents, event, cursor, upto - 1);
    }
}

/// Nodes that are not being dragged ask the host for nothing: where none of
/// the first `upto` nodes is dragged, nothing is emitted.
pub proof fn lemma_nodes_at_rest_emit_nothing(
    offsets: Seq<Vector>,
    states: Seq<State>,
    layouts: Seq<NodeLayout>,
    contents: Seq<Status>,
    event: Input,
    cursor: Point,
    upto: int,
)
    requires
        forall|i: int| 0 <= i < upto ==> !(#[trigger] states[i] is Translating),
    ensures
        children_emitted(offsets, states, layouts, contents, event, cursor, upto) == Seq::<
            Event,
        >::empty(),
    decreases upto,
{
    if upto > 0 {
        lemma_nodes_at_rest_emit_nothing(
            offsets,
            states,
            layouts,
            contents,
            event,
            cursor,
            upto - 1,
        );
        assert(!(states[upto - 1] is Translating));
    }
}

/// Releasing the button over a canvas on which the node at place `dragged`
/// alone is being dragged emits exactly one event: that node moved to its
/// old offset plus the offset of the drag.
pub proof fn lemma_release_commits_the_drag_once(
    offsets: Seq<Vector>,
    states: Seq<State>,
    layouts: Seq<NodeLayout>,
    contents: Seq<Status>,
    cursor: Point,
    upto: int,
    dragged: int,
)
    requires
        0 <= dragged < upto,
        dragged <= usize::MAX,
        states[dragged] is Translating,
        forall|i: int| 0 <= i < upto && i != dragged ==> !(#[trigger] states[i] is Translating),
    ensures
        children_emitted(
            offsets,
            states,
            layouts,
            contents,
            Input::ButtonReleased(Button::Left),
            cursor,
            upto,
        ) == seq![
            Event::NodeMoved {
                index: dragged as usize,
                offset: offsets[dragged].spec_plus(states[dragged]->offset),
            },
        ],
    decreases upto,
{
    let release = Input::ButtonReleased(Button::Left);
    if upto == dragged + 1 {
        lemma_nodes_at_rest_emit_nothing(
            offsets,
            states,
            layouts,
            contents,
            release,
            cursor,
            dragged,
        );
        assert(children_emitted(offsets, states, layouts, contents, release, cursor, upto)
            =~= seq![
            Event::NodeMoved {
                index: dragged as usize,
                offset: offsets[dragged].spec_plus(states[dragged]->offset),
            },
        ]);
    } else {
        lemma_release_commits_the_drag_once(
            offsets,
            states,
            layouts,
            contents,
            cursor,
            upto - 1,
            dragged,
        );
        assert(!(states[upto - 1] is Translating));
    }
}

/// Two nodes are hovered together only where their padding bands overlap
/// under the cursor: after a move of the cursor that the contents left
/// alone, a node whose band does not hold the cursor is not hovered.
pub proof fn lemma_hover_exclusive(
    offsets: Seq<Vector>,
    states: Seq<State>,
    layouts: Seq<NodeLayout>,
    contents: Seq<Status>,
    moved: Input,
    cursor: Point,
    a: int,
    b: int,
)
    requires
        moved is CursorMoved,
        contents[a] is Ignored,
        contents[b] is Ignored,
        !on_band(layouts[b], cursor),
    ensures
        !(child_reaction(offsets, states, layouts, contents, moved, cursor, a).state is Hovered
            && child_reaction(offsets, states, layouts, contents, moved, cursor, b).state
            is Hovered),
{
}

} // verus!
