//! Geometry of the curves that show the edges of the graph.
//!
//! An edge leaves its source at the middle of the right side and enters its
//! target at the middle of the left side. Both ends are taken through the
//! transform of the canvas and joined by a cubic curve whose control points
//! lie level with the ends.

use vstd::prelude::*;
use crate::fixed::{div_floor, saturate, saturating};
use crate::geometry::{Point, Rectangle, Vector};
use crate::render::{Color, Connector, Curve};
use crate::transform::{scaled, spec_scaled, Transform};

verus! {

/// Everything about the canvas that the shape of a connector depends on.
#[derive(Clone, Copy, Debug, PartialEq, Eq, Structural)]
pub struct Pen {
    /// The committed transform of the canvas.
    pub transform: Transform,
    /// By how much a pan in progress moves the canvas.
    pub pan: Vector,
    /// The corner that the curves are drawn relative to, in screen space.
    pub frame: Point,
    /// The stroke width at scale one.
    pub width: i32,
    /// The stroke colour.
    pub color: Color,
}

/// The least horizontal reach of a control point at scale one: 30 pixels.
pub const MIN_REACH: i32 = 30000;

/// A canvas-local coordinate taken to the frame: translated, panned,
/// scaled, and counted from `frame`.
pub open spec fn spec_framed(v: int, translation: int, pan: int, scaling: int, frame: int) -> int {
    spec_scaled(v + translation + pan, scaling) - frame
}

/// How far a control point reaches sideways from its end of the curve: half
/// the horizontal distance between the ends, at least [`MIN_REACH`], scaled.
pub open spec fn spec_reach(start_x: int, end_x: int, scaling: int) -> int {
    let half = (end_x - start_x) / 2;
    spec_scaled(
        if half < MIN_REACH {
            MIN_REACH as int
        } else {
            half
        },
        scaling,
    )
}

/// The connector from a node with the box `from` to one with the box `to`.
pub open spec fn spec_connector(from: Rectangle, to: Rectangle, pen: Pen) -> Connector {
    let s = pen.transform.scaling as int;
    let t = pen.transform.translation;
    let start_x = spec_framed(from.right(), t.x as int, pen.pan.x as int, s, pen.frame.x as int);
    let start_y = spec_framed(from.center_y(), t.y as int, pen.pan.y as int, s, pen.frame.y as int);
    let end_x = spec_framed(to.x as int, t.x as int, pen.pan.x as int, s, pen.frame.x as int);
    let end_y = spec_framed(to.center_y(), t.y as int, pen.pan.y as int, s, pen.frame.y as int);
    let reach = spec_reach(from.right(), to.x as int, s);
    Connector {
        curve: Curve {
            from: Point { x: saturate(start_x), y: saturate(start_y) },
            control_a: Point { x: saturate(start_x + reach), y: saturate(start_y) },
            control_b: Point { x: saturate(end_x - reach), y: saturate(end_y) },
            to: Point { x: saturate(end_x), y: saturate(end_y) },
        },
        width: saturate(spec_scaled(pen.width as int, s)),
        color: pen.color,
    }
}

/// The connectors of the first `upto` edges of the node at place `from` in
/// a list of `count` nodes: one for each target that is a place in the
/// list, in the order of the edges. `bounds` holds the box of each node.
pub open spec fn edge_connectors(
    edges: Seq<usize>,
    upto: int,
    from: int,
    count: nat,
    bounds: Seq<Rectangle>,
    pen: Pen,
) -> Seq<Connector>
    decreases upto,
{
    if upto <= 0 {
        Seq::empty()
    } else {
        let before = edge_connectors(edges, upto - 1, from, count, bounds, pen);
        let to = edges[upto - 1];
        if to < count {
            before.push(spec_connector(bounds[from], bounds[to as int], pen))
        } else {
            before
        }
    }
}

/// The connectors of the first `upto` nodes of the list whose edges are
/// `edges`, node by node.
pub open spec fn graph_connectors(
    edges: Seq<Seq<usize>>,
    upto: int,
    bounds: Seq<Rectangle>,
    pen: Pen,
) -> Seq<Connector>
    decreases upto,
{
    if upto <= 0 {
        Seq::empty()
    } else {
        graph_connectors(edges, upto - 1, bounds, pen) + edge_connectors(
            edges[upto - 1],
            edges[upto - 1].len() as int,
            upto - 1,
            edges.len(),
            bounds,
            pen,
        )
    }
}

fn framed(v: i64, translation: i32, pan: i32, scaling: i32, frame: i32) -> (r: i64)
    requires
        -0x2_0000_0000 <= v <= 0x2_0000_0000,
        0 < scaling <= crate::transform::MAX_SCALING,
    ensures
        r == spec_framed(v as int, translation as int, pan as int, scaling as int, frame as int),
        -0x1000_0000_0000 <= r <= 0x1000_0000_0000,
{
    scaled(v + translation as i64 + pan as i64, scaling) - frame as i64
}

/// Computes the connector between two node boxes.
pub fn connector(from: Rectangle, to: Rectangle, pen: &Pen) -> (c: Connector)
    requires
        pen.transform.wf(),
    ensures
        c == spec_connector(from, to, *pen),
{
    let s = pen.transform.scaling;
    let t = pen.transform.translation;
    let right: i64 = from.x as i64 + from.width as i64;
    let from_middle: i64 = from.y as i64 + div_floor(from.height as i64, 2);
    let to_middle: i64 = to.y as i64 + div_floor(to.height as i64, 2);
    let start_x = framed(right, t.x, pen.pan.x, s, pen.frame.x);
    let start_y = framed(from_middle, t.y, pen.pan.y, s, pen.frame.y);
    let end_x = framed(to.x as i64, t.x, pen.pan.x, s, pen.frame.x);
    let end_y = framed(to_middle, t.y, pen.pan.y, s, pen.frame.y);
    let half: i64 = div_floor(to.x as i64 - right, 2);
    let reach: i64 = scaled(
        if half < MIN_REACH as i64 {
            MIN_REACH as i64
        } else {
            half
        },
        s,
    );
    Connector {
        curve: Curve {
            from: Point { x: saturating(start_x), y: saturating(start_y) },
            control_a: Point { x: saturating(start_x + reach), y: saturating(start_y) },
            control_b: Point { x: saturating(end_x - reach), y: saturating(end_y) },
            to: Point { x: saturating(end_x), y: saturating(end_y) },
        },
        width: saturating(scaled(pen.width as i64, s)),
        color: pen.color,
    }
}

/// A node draws no connector for edges that lead outside the list: where
/// none of its first `upto` targets is a place in the list, nothing is drawn.
pub proof fn lemma_dangling_edges_draw_nothing(
    edges: Seq<usize>,
    upto: int,
    from: int,
    count: nat,
    bounds: Seq<Rectangle>,
    pen: Pen,
)
    requires
        forall|k: int| 0 <= k < upto ==> edges[k] >= count,
    ensures
        edge_connectors(edges, upto, from, count, bounds, pen) == Seq::<Connector>::empty(),
    decreases upto,
{
    if upto > 0 {
        lemma_dangling_edges_draw_nothing(edges, upto - 1, from, count, bounds, pen);
    }
}

/// The number of edges among the first `upto` that lead to a place in a
/// list of `count` nodes.
pub open spec fn valid_targets(edges: Seq<usize>, upto: int, count: nat) -> nat
    decreases upto,
{
    if upto <= 0 {
        0
    } else {
        valid_targets(edges, upto - 1, count) + if edges[upto - 1] < count {
            1nat
        } else {
            0nat
        }
    }
}

/// A node draws exactly one connector for each edge that leads to a place
/// in the list, duplicates and loops to itself included.
pub proof fn lemma_one_connector_per_valid_edge(
    edges: Seq<usize>,
    upto: int,
    from: int,
    count: nat,
    bounds: Seq<Rectangle>,
    pen: Pen,
)
    ensures
        edge_connectors(edges, upto, from, count, bounds, pen).len() == valid_targets(
            edges,
            upto,
            count,
        ),
    decreases upto,
{
    if upto > 0 {
        lemma_one_connector_per_valid_edge(edges, upto - 1, from, count, bounds, pen);
    }
}

/// A graph whose edges all lead outside the list draws no connector.
pub proof fn lemma_dangling_graph_draws_nothing(
    edges: Seq<Seq<usize>>,
    upto: int,
    bounds: Seq<Rectangle>,
    pen: Pen,
)
    requires
        forall|i: int, k: int|
            0 <= i < upto && 0 <= k < edges[i].len() ==> #[trigger] edges[i][k] >= edges.len(),
    ensures
        graph_connectors(edges, upto, bounds, pen) == Seq::<Connector>::empty(),
    decreases upto,
{
    if upto > 0 {
        lemma_dangling_graph_draws_nothing(edges, upto - 1, bounds, pen);
        lemma_dangling_edges_draw_nothing(
            edges[upto - 1],
            edges[upto - 1].len() as int,
            upto - 1,
            edges.len(),
            bounds,
            pen,
        );
    }
}

} // verus!
