//! A node of the graph: a padded box around some content, which the user
//! hovers and drags by its padding band.

use vstd::prelude::*;
use crate::fixed::{saturate, saturating, UNIT};
use crate::geometry::{Padding, Point, Rectangle, Size, Vector};
use crate::layout::{Limits, NodeLayout};
use crate::pointer::{Affordance, Button, Input, Status};
use crate::render::{Background, Color, Quad};
use crate::theme;
use super::editor::Event;

verus! {

/// What the user is doing with one node.
#[derive(Clone, Copy, Debug, PartialEq, Eq, Structural)]
pub enum State {
    /// The cursor is not on the padding band.
    Idle,
    /// The cursor rests on the padding band.
    Hovered,
    /// The node is being dragged: the cursor went down at `started_at` and
    /// has since moved by `offset`.
    Translating { started_at: Point, offset: Vector },
}

impl State {
    /// `bounds` moved by the drag in progress, if there is one.
    pub open spec fn spec_adjusted_bounds(self, bounds: Rectangle) -> Rectangle {
        match self {
            State::Translating { offset, .. } => bounds.spec_translate(offset),
            _ => bounds,
        }
    }

    pub fn adjusted_bounds(&self, bounds: Rectangle) -> (adjusted: Rectangle)
        ensures
            adjusted == self.spec_adjusted_bounds(bounds),
    {
        match self {
            State::Idle | State::Hovered => bounds,
            State::Translating { offset, .. } => bounds.translate(*offset),
        }
    }

    /// Whether the wrapped content is offered an event before the node
    /// itself looks at it: always, except during a drag.
    pub open spec fn spec_forwards_to_content(self) -> bool {
        !(self is Translating)
    }

    pub fn forwards_to_content(&self) -> (forwards: bool)
        ensures
            forwards == self.spec_forwards_to_content(),
    {
        match self {
            State::Translating { .. } => false,
            _ => true,
        }
    }

    /// The cursor hint that goes with the state.
    pub open spec fn spec_affordance(self) -> Affordance {
        match self {
            State::Idle => Affordance::Idle,
            State::Hovered => Affordance::Grab,
            State::Translating { .. } => Affordance::Grabbing,
        }
    }
}

impl Default for State {
    fn default() -> (state: State)
        ensures
            state == State::Idle,
    {
        State::Idle
    }
}

/// What one node makes of one event.
pub struct Reaction {
    /// The state of the node after the event.
    pub state: State,
    /// Whether the node, or its content, consumed the event.
    pub status: Status,
    /// What the node asks its host to commit, if anything.
    pub emitted: Option<Event>,
}

/// Whether `cursor` lies on the padding band of a node: inside its outer
/// box and outside the box of its content.
pub open spec fn on_band(layout: NodeLayout, cursor: Point) -> bool {
    layout.bounds.spec_contains(cursor) && !layout.content.spec_contains(cursor)
}

/// The transition function of a node.
///
/// `offset` is the committed position of the node and `index` its place
/// in the list; `band` tells whether `cursor` lies on the padding band;
/// `content` is what the wrapped content answered, and is read only where
/// the content was offered the event, that is outside a drag.
pub open spec fn react(
    state: State,
    offset: Vector,
    index: usize,
    event: Input,
    band: bool,
    cursor: Point,
    content: Status,
) -> Reaction {
    match state {
        State::Translating { started_at, offset: live } => match event {
            Input::CursorMoved { .. } => Reaction {
                state: State::Translating {
                    started_at,
                    offset: cursor.spec_vector_from(started_at),
                },
                status: Status::Captured,
                emitted: None,
            },
            Input::ButtonReleased(Button::Left) => Reaction {
                state: if band {
                    State::Hovered
                } else {
                    State::Idle
                },
                status: Status::Captured,
                emitted: Some(Event::NodeMoved { index, offset: offset.spec_plus(live) }),
            },
            _ => Reaction { state, status: Status::Ignored, emitted: None },
        },
        _ => if content is Captured {
            Reaction { state, status: Status::Captured, emitted: None }
        } else {
            match event {
                Input::CursorMoved { .. } if band && state is Idle => Reaction {
                    state: State::Hovered,
                    status: Status::Captured,
                    emitted: None,
                },
                Input::CursorMoved { .. } if !band && state is Hovered => Reaction {
                    state: State::Idle,
                    status: Status::Captured,
                    emitted: None,
                },
                Input::ButtonPressed(Button::Left) if state is Hovered => Reaction {
                    state: State::Translating { started_at: cursor, offset: Vector::zero() },
                    status: Status::Captured,
                    emitted: None,
                },
                _ => Reaction { state, status: Status::Ignored, emitted: None },
            }
        },
    }
}

/// How a node looks: lengths in fixed-point units.
#[derive(Clone, Copy, Debug, PartialEq, Eq, Structural)]
pub struct Appearance {
    pub text_color: Option<Color>,
    pub background: Option<Background>,
    pub border_radius: i32,
    pub border_width: i32,
    pub border_color: Color,
}

impl Default for Appearance {
    fn default() -> (appearance: Appearance)
        ensures
            appearance == (Appearance {
                text_color: None,
                background: None,
                border_radius: 0,
                border_width: 0,
                border_color: Color::spec_transparent(),
            }),
    {
        Appearance {
            text_color: None,
            background: None,
            border_radius: 0,
            border_width: 0,
            border_color: Color::transparent(),
        }
    }
}

/// A theme that knows how nodes look.
pub trait StyleSheet {
    /// The styles the theme offers for a node.
    type Style: Default + Copy;

    /// The look of a node in the given style.
    spec fn spec_appearance(&self, style: Self::Style) -> Appearance;

    fn appearance(&self, style: Self::Style) -> (appearance: Appearance)
        ensures
            appearance == self.spec_appearance(style),
    ;
}

/// Padding of a node, in whole pixels: the band on top is the drag handle.
pub open spec fn spec_padding() -> Padding {
    Padding { top: 20, right: 5, bottom: 5, left: 5 }
}

#[verifier::when_used_as_spec(spec_padding)]
pub fn padding() -> (p: Padding)
    ensures
        p == spec_padding(),
{
    Padding { top: 20, right: 5, bottom: 5, left: 5 }
}

/// One node of the graph as the host describes it for a frame: the content
/// it wraps, where it stands, and the nodes its edges lead to. `S` is the
/// type of styles of the theme the node is drawn in.
pub struct Node<C, S = theme::Node> {
    /// The wrapped content, which the library carries and never looks into.
    pub content: C,
    /// The committed position of the top-left corner, in canvas-local space.
    pub offset: Vector,
    /// The targets of the outgoing edges, as indices into the node list.
    pub edges: Vec<usize>,
    /// The style in which the node is drawn.
    pub style: S,
}

/// What a renderer is asked to draw for one node.
#[derive(Clone, Copy, Debug, PartialEq, Eq, Structural)]
pub struct Drawing {
    /// By how much everything below is moved: the drag in progress, if any.
    pub translation: Vector,
    /// The box of the node with its background and border.
    pub quad: Quad,
    /// The colour of text inside the content.
    pub text_color: Color,
    /// Where the content draws itself.
    pub content: Rectangle,
    /// The cursor as the content sees it, in canvas-local space.
    pub cursor: Point,
}

impl<C> Node<C, theme::Node> {
    /// A node in the default style that wraps `content`, stands at `offset`
    /// and has an edge to each place in `edges`.
    pub fn new(content: C, offset: Vector, edges: Vec<usize>) -> (node: Node<C>)
        ensures
            node.content == content,
            node.offset == offset,
            node.edges == edges,
            node.style == theme::Node::Default,
    {
        Node { content, offset, edges, style: theme::Node::Default }
    }

}

impl<C, S: Copy> Node<C, S> {
    /// The same node in another style, which may be a style of another
    /// theme.
    pub fn style<R>(self, style: R) -> (node: Node<C, R>)
        ensures
            node.content == self.content,
            node.offset == self.offset,
            node.edges == self.edges,
            node.style == style,
    {
        Node { content: self.content, offset: self.offset, edges: self.edges, style }
    }

    /// The limits handed to the content: those of the node less its padding.
    pub fn content_limits(&self, limits: &Limits) -> (inner: Limits)
        ensures
            inner == limits.spec_pad(spec_padding()),
    {
        limits.pad(padding())
    }

    /// Where the node and its content lie, given the extent that the
    /// content took: the content sits inside the padding, and the whole is
    /// moved to the node's offset.
    pub open spec fn spec_layout(&self, content: Size) -> NodeLayout {
        let size = content.spec_pad(spec_padding());
        let offset = self.offset;
        NodeLayout {
            bounds: Rectangle { x: offset.x, y: offset.y, width: size.width, height: size.height },
            content: Rectangle {
                x: saturate(offset.x + spec_padding().left * UNIT),
                y: saturate(offset.y + spec_padding().top * UNIT),
                width: content.width,
                height: content.height,
            },
        }
    }

    pub fn layout(&self, content: Size) -> (layout: NodeLayout)
        ensures
            layout == self.spec_layout(content),
    {
        let padding = padding();
        let size = content.pad(padding);
        let left: i64 = (padding.left as i64) * (UNIT as i64);
        let top: i64 = (padding.top as i64) * (UNIT as i64);
        NodeLayout {
            bounds: Rectangle {
                x: self.offset.x,
                y: self.offset.y,
                width: size.width,
                height: size.height,
            },
            content: Rectangle {
                x: saturating(self.offset.x as i64 + left),
                y: saturating(self.offset.y as i64 + top),
                width: content.width,
                height: content.height,
            },
        }
    }

    /// Handles one event for the node at place `index` of the list.
    ///
    /// `cursor_position` is in canvas-local space. Outside a drag the
    /// caller offers the event to the content first and passes its answer
    /// as `content`; during a drag the content is not offered the event and
    /// `content` is not read.
    pub fn on_event(
        &self,
        state: &mut State,
        event: Input,
        layout: &NodeLayout,
        cursor_position: Point,
        content: Status,
        index: usize,
    ) -> (out: (Status, Option<Event>))
        ensures
            ({
                let r = react(
                    *old(state),
                    self.offset,
                    index,
                    event,
                    on_band(*layout, cursor_position),
                    cursor_position,
                    content,
                );
                &&& *final(state) == r.state
                &&& out.0 == r.status
                &&& out.1 == r.emitted
            }),
    {
        let band = layout.bounds.contains(cursor_position) && !layout.content.contains(
            cursor_position,
        );
        match *state {
            State::Translating { started_at, offset } => match event {
                Input::CursorMoved { .. } => {
                    *state = State::Translating {
                        started_at,
                        offset: cursor_position.vector_from(started_at),
                    };
                    (Status::Captured, None)
                },
                Input::ButtonReleased(Button::Left) => {
                    let emitted = Event::NodeMoved { index, offset: self.offset.plus(offset) };
                    *state = if band {
                        State::Hovered
                    } else {
                        State::Idle
                    };
                    (Status::Captured, Some(emitted))
                },
                _ => (Status::Ignored, None),
            },
            State::Idle => match content {
                Status::Captured => (Status::Captured, None),
                Status::Ignored => match event {
                    Input::CursorMoved { .. } => {
                        if band {
                            *state = State::Hovered;
                            (Status::Captured, None)
                        } else {
                            (Status::Ignored, None)
                        }
                    },
                    _ => (Status::Ignored, None),
                },
            },
            State::Hovered => match content {
                Status::Captured => (Status::Captured, None),
                Status::Ignored => match event {
                    Input::CursorMoved { .. } => {
                        if !band {
                            *state = State::Idle;
                            (Status::Captured, None)
                        } else {
                            (Status::Ignored, None)
                        }
                    },
                    Input::ButtonPressed(Button::Left) => {
                        *state = State::Translating {
                            started_at: cursor_position,
                            offset: Vector::zero(),
                        };
                        (Status::Captured, None)
                    },
                    _ => (Status::Ignored, None),
                },
            },
        }
    }

    /// What is drawn for the node: its box in the look that `theme` gives
    /// to its style, then its content, all moved by the drag in progress.
    /// Text takes the colour of the look, or `text_color` where the look
    /// names none.
    pub open spec fn spec_draw<T: StyleSheet<Style = S>>(
        &self,
        state: State,
        theme: &T,
        text_color: Color,
        layout: NodeLayout,
        cursor_position: Point,
    ) -> Drawing {
        let appearance = theme.spec_appearance(self.style);
        Drawing {
            translation: match state {
                State::Translating { offset, .. } => offset,
                _ => Vector::zero(),
            },
            quad: Quad {
                bounds: layout.bounds,
                border_radius: appearance.border_radius,
                border_width: appearance.border_width,
                border_color: appearance.border_color,
                background: match appearance.background {
                    Some(background) => background,
                    None => Background::Color(Color::transparent()),
                },
            },
            text_color: match appearance.text_color {
                Some(color) => color,
                None => text_color,
            },
            content: layout.content,
            cursor: cursor_position,
        }
    }

    pub fn draw<T: StyleSheet<Style = S>>(
        &self,
        state: &State,
        theme: &T,
        text_color: Color,
        layout: &NodeLayout,
        cursor_position: Point,
    ) -> (drawing: Drawing)
        ensures
            drawing == self.spec_draw(*state, theme, text_color, *layout, cursor_position),
    {
        let appearance = theme.appearance(self.style);
        Drawing {
            translation: match state {
                State::Translating { offset, .. } => *offset,
                _ => Vector::zero(),
            },
            quad: Quad {
                bounds: layout.bounds,
                border_radius: appearance.border_radius,
                border_width: appearance.border_width,
                border_color: appearance.border_color,
                background: match appearance.background {
                    Some(background) => background,
                    None => Background::Color(Color::transparent()),
                },
            },
            text_color: match appearance.text_color {
                Some(color) => color,
                None => text_color,
            },
            content: layout.content,
            cursor: cursor_position,
        }
    }

    /// The cursor hint for the node.
    pub fn mouse_interaction(&self, state: &State) -> (hint: Affordance)
        ensures
            hint == state.spec_affordance(),
    {
        match state {
            State::Idle => Affordance::Idle,
            State::Hovered => Affordance::Grab,
            State::Translating { .. } => Affordance::Grabbing,
        }
    }
}

/// Outside a drag a node asks its host for nothing, whatever the event:
/// hovering alone never moves a node.
pub proof fn lemma_only_a_drag_emits(
    state: State,
    offset: Vector,
    index: usize,
    event: Input,
    band: bool,
    cursor: Point,
    content: Status,
)
    requires
        !(state is Translating),
    ensures
        react(state, offset, index, event, band, cursor, content).emitted is None,
{
}

/// A drag commits exactly where the cursor took the node.
///
/// A hovered node is pressed at `press`, the cursor moves to `drop`, and
/// the button is released: the press and the move emit nothing, and the
/// release emits one `NodeMoved` whose offset is the old offset plus
/// `drop - press`, and ends the drag. The sums must fit the coordinate
/// range.
pub proof fn lemma_drag_round_trip(
    offset: Vector,
    index: usize,
    press: Point,
    drop: Point,
    moved: Input,
    band_at_press: bool,
    band_at_move: bool,
    band_at_release: bool,
    release: Point,
    content_at_move: Status,
    content_at_release: Status,
)
    requires
        moved is CursorMoved,
        i32::MIN <= drop.x - press.x <= i32::MAX,
        i32::MIN <= drop.y - press.y <= i32::MAX,
        i32::MIN <= offset.x + (drop.x - press.x) <= i32::MAX,
        i32::MIN <= offset.y + (drop.y - press.y) <= i32::MAX,
    ensures
        ({
            let pressed = react(
                State::Hovered,
                offset,
                index,
                Input::ButtonPressed(Button::Left),
                band_at_press,
                press,
                Status::Ignored,
            );
            let dragged = react(
                pressed.state,
                offset,
                index,
                moved,
                band_at_move,
                drop,
                content_at_move,
            );
            let released = react(
                dragged.state,
                offset,
                index,
                Input::ButtonReleased(Button::Left),
                band_at_release,
                release,
                content_at_release,
            );
            &&& pressed.emitted is None
            &&& dragged.emitted is None
            &&& dragged.state is Translating
            &&& released.emitted == Some(
                Event::NodeMoved {
                    index,
                    offset: Vector {
                        x: (offset.x + (drop.x - press.x)) as i32,
                        y: (offset.y + (drop.y - press.y)) as i32,
                    },
                },
            )
            &&& !(released.state is Translating)
        }),
{
}

/// A press followed at once by a release commits the node where it stood.
pub proof fn lemma_click_commits_in_place(
    offset: Vector,
    index: usize,
    press: Point,
    band_at_press: bool,
    band_at_release: bool,
    release: Point,
    content_at_release: Status,
)
    ensures
        ({
            let pressed = react(
                State::Hovered,
                offset,
                index,
                Input::ButtonPressed(Button::Left),
                band_at_press,
                press,
                Status::Ignored,
            );
            let released = react(
                pressed.state,
                offset,
                index,
                Input::ButtonReleased(Button::Left),
                band_at_release,
                release,
                content_at_release,
            );
            released.emitted == Some(Event::NodeMoved { index, offset })
        }),
{
}

/// After a move of the cursor that the content of a node left alone, the
/// node is hovered only if the cursor lies on its padding band; a node that
/// is being dragged stays so.
pub proof fn lemma_hovered_means_on_band(
    state: State,
    offset: Vector,
    index: usize,
    moved: Input,
    band: bool,
    cursor: Point,
)
    requires
        moved is CursorMoved,
    ensures
        react(state, offset, index, moved, band, cursor, Status::Ignored).state is Hovered ==> band,
{
}

} // verus!
