use iced_graph_editor::geometry::{Point, Rectangle, Size, Vector};
use iced_graph_editor::layout::{Layout, Limits};
use iced_graph_editor::pointer::{Affordance, Button, Input, Status};
use iced_graph_editor::theme;
use iced_graph_editor::transform::{Transform, MAX_SCALING, MIN_SCALING};
use iced_graph_editor::widget::graph::editor::{zoom, Editor, Event, Interaction, Tree};
use iced_graph_editor::widget::graph::node::{Node, State};

const CONTENT: Size = Size { width: 50_000, height: 20_000 };
const CANVAS: Size = Size { width: 800_000, height: 600_000 };

fn two_nodes() -> Editor<()> {
    Editor::new(vec![
        Node::new((), Vector::new(0, 0), vec![1]),
        Node::new((), Vector::new(100_000, 0), vec![]),
    ])
}

fn fresh_tree<C>(editor: &Editor<C>) -> Tree {
    Tree { state: editor.state(), children: editor.children() }
}

fn layout_of<C>(editor: &Editor<C>) -> Layout {
    let contents = vec![CONTENT; editor.nodes.len()];
    editor.layout(CANVAS, &contents)
}

fn ignored(count: usize) -> Vec<Status> {
    vec![Status::Ignored; count]
}

fn moved(x: i32, y: i32) -> Input {
    Input::CursorMoved { position: Point::new(x, y) }
}

fn send(editor: &Editor<()>, tree: &mut Tree, event: Input, x: i32, y: i32) -> (Status, Vec<Event>) {
    let layout = layout_of(editor);
    let out = editor.on_event(tree, event, &layout, Point::new(x, y), &ignored(editor.nodes.len()));
    (out.status, out.emitted)
}

#[test]
fn a_new_editor_is_at_scale_one_and_not_translated() {
    let editor = two_nodes();
    assert_eq!(editor.nodes.len(), 2);
    assert_eq!(editor.scaling, 1000);
    assert_eq!(editor.translation, Vector::zero());
    assert_eq!(editor.max_node_size, Size::new(300_000, 300_000));
    assert_eq!(editor.style, theme::Node::Default);
    assert_eq!(
        editor.transformation(),
        Transform { scaling: 1000, translation: Vector::zero() }
    );
    assert_eq!(
        editor.node_limits(),
        Limits { min: Size::zero(), max: Size::new(300_000, 300_000) }
    );
}

#[test]
fn the_builders_set_one_field_each() {
    let editor = two_nodes()
        .scaling(2500)
        .translation(Vector::new(7, -9))
        .style(theme::Node::Default);
    assert_eq!(editor.scaling, 2500);
    assert_eq!(editor.translation, Vector::new(7, -9));
    assert_eq!(editor.nodes.len(), 2);
    assert_eq!(editor.nodes[1].offset, Vector::new(100_000, 0));
    assert_eq!(editor.max_node_size, Size::new(300_000, 300_000));
}

#[test]
fn the_cursor_is_taken_back_through_the_transform() {
    let editor = two_nodes().scaling(2000).translation(Vector::new(10_000, 20_000));
    assert_eq!(editor.transform_cursor(Point::new(30_000, 50_000)), Point::new(5_000, 5_000));
    let editor = two_nodes();
    assert_eq!(editor.transform_cursor(Point::new(0, 0)), Point::new(0, 0));
}

#[test]
fn the_layout_fills_the_space_and_places_each_node() {
    let editor = two_nodes();
    let layout = layout_of(&editor);
    assert_eq!(layout.bounds, Rectangle { x: 0, y: 0, width: 800_000, height: 600_000 });
    assert_eq!(layout.children.len(), 2);
    assert_eq!(
        layout.children[0].bounds,
        Rectangle { x: 0, y: 0, width: 60_000, height: 45_000 }
    );
    assert_eq!(
        layout.children[0].content,
        Rectangle { x: 5_000, y: 20_000, width: 50_000, height: 20_000 }
    );
    assert_eq!(
        layout.children[1].bounds,
        Rectangle { x: 100_000, y: 0, width: 60_000, height: 45_000 }
    );
    // Content sizes beyond the nodes, or nodes beyond the sizes, are left out.
    assert_eq!(editor.layout(CANVAS, &vec![CONTENT; 5]).children.len(), 2);
    assert_eq!(editor.layout(CANVAS, &vec![CONTENT; 1]).children.len(), 1);
}

#[test]
fn fresh_state_is_idle_everywhere() {
    let editor = two_nodes();
    let tree = fresh_tree(&editor);
    assert_eq!(tree.state, Interaction::Idle);
    assert_eq!(tree.children, vec![State::Idle, State::Idle]);
    assert_eq!(Interaction::default(), Interaction::Idle);
    assert_eq!(Interaction::Idle.offset(), Vector::zero());
    let panning = Interaction::Translating { started_at: Point::new(1, 2), offset: Vector::new(3, 4) };
    assert_eq!(panning.offset(), Vector::new(3, 4));
}

#[test]
fn states_are_matched_to_nodes_by_place() {
    let dragging = State::Translating { started_at: Point::new(1, 1), offset: Vector::new(2, 2) };
    let panning = Interaction::Translating { started_at: Point::new(5, 5), offset: Vector::zero() };
    // Fewer nodes than states: the states beyond the list are dropped.
    let mut tree = Tree { state: panning, children: vec![State::Hovered, dragging, State::Hovered] };
    two_nodes().diff(&mut tree);
    assert_eq!(tree.children, vec![State::Hovered, dragging]);
    assert_eq!(tree.state, panning);
    // More nodes than states: the new places start idle.
    let mut tree = Tree { state: Interaction::Idle, children: vec![dragging] };
    two_nodes().diff(&mut tree);
    assert_eq!(tree.children, vec![dragging, State::Idle]);
    // As many: nothing changes.
    two_nodes().diff(&mut tree);
    assert_eq!(tree.children, vec![dragging, State::Idle]);
    // No nodes at all.
    let empty: Editor<()> = Editor::new(vec![]);
    empty.diff(&mut tree);
    assert_eq!(tree.children, vec![]);
}

#[test]
fn pressing_on_a_band_and_releasing_further_on_moves_the_node() {
    let editor = two_nodes();
    let mut tree = fresh_tree(&editor);
    assert_eq!(send(&editor, &mut tree, moved(0, 0), 0, 0), (Status::Captured, vec![]));
    assert_eq!(tree.children, vec![State::Hovered, State::Idle]);
    assert_eq!(
        send(&editor, &mut tree, Input::ButtonPressed(Button::Left), 0, 0),
        (Status::Captured, vec![])
    );
    assert_eq!(send(&editor, &mut tree, moved(10_000, 0), 10_000, 0), (Status::Captured, vec![]));
    assert_eq!(
        send(&editor, &mut tree, Input::ButtonReleased(Button::Left), 10_000, 0),
        (
            Status::Captured,
            vec![Event::NodeMoved { index: 0, offset: Vector::new(10_000, 0) }]
        )
    );
    // The canvas itself never started a pan.
    assert_eq!(tree.state, Interaction::Idle);
    assert_eq!(tree.children, vec![State::Hovered, State::Idle]);
}

#[test]
fn a_drag_is_measured_in_canvas_space() {
    let editor = two_nodes().scaling(2000).translation(Vector::new(50_000, 50_000));
    let mut tree = fresh_tree(&editor);
    // Canvas point (1, 1) px is shown at ((1 + 50) * 2, (1 + 50) * 2) px.
    assert_eq!(send(&editor, &mut tree, moved(102_000, 102_000), 102_000, 102_000).0, Status::Captured);
    assert_eq!(tree.children[0], State::Hovered);
    send(&editor, &mut tree, Input::ButtonPressed(Button::Left), 102_000, 102_000);
    assert_eq!(
        tree.children[0],
        State::Translating { started_at: Point::new(1_000, 1_000), offset: Vector::zero() }
    );
    // Forty pixels on screen are twenty on the canvas.
    send(&editor, &mut tree, moved(142_000, 102_000), 142_000, 102_000);
    let (status, emitted) =
        send(&editor, &mut tree, Input::ButtonReleased(Button::Left), 142_000, 102_000);
    assert_eq!(status, Status::Captured);
    assert_eq!(emitted, vec![Event::NodeMoved { index: 0, offset: Vector::new(20_000, 0) }]);
}

#[test]
fn two_nodes_are_hovered_together_only_where_their_bands_overlap() {
    // The second node overlaps the first.
    let editor: Editor<()> = Editor::new(vec![
        Node::new((), Vector::new(0, 0), vec![]),
        Node::new((), Vector::new(30_000, 0), vec![]),
    ]);
    let mut tree = fresh_tree(&editor);
    // On the band of the first only.
    send(&editor, &mut tree, moved(10_000, 10_000), 10_000, 10_000);
    assert_eq!(tree.children, vec![State::Hovered, State::Idle]);
    // On both bands.
    send(&editor, &mut tree, moved(40_000, 10_000), 40_000, 10_000);
    assert_eq!(tree.children, vec![State::Hovered, State::Hovered]);
    // On the band of the second, beyond the first node.
    send(&editor, &mut tree, moved(80_000, 10_000), 80_000, 10_000);
    assert_eq!(tree.children, vec![State::Idle, State::Hovered]);
    // On the band of the second, inside the content of the first.
    send(&editor, &mut tree, moved(32_000, 30_000), 32_000, 30_000);
    assert_eq!(tree.children, vec![State::Idle, State::Hovered]);
}

#[test]
fn every_node_sees_the_event_and_any_capture_counts() {
    let editor = two_nodes();
    let layout = layout_of(&editor);
    let mut tree = fresh_tree(&editor);
    // The content of the second node consumes the press: the canvas does not pan.
    let out = editor.on_event(
        &mut tree,
        Input::ButtonPressed(Button::Left),
        &layout,
        Point::new(120_000, 30_000),
        &vec![Status::Ignored, Status::Captured],
    );
    assert_eq!(out.status, Status::Captured);
    assert_eq!(out.emitted, vec![]);
    assert_eq!(tree.state, Interaction::Idle);
}

#[test]
fn nodes_without_state_layout_or_answer_are_skipped() {
    let editor = two_nodes();
    let layout = layout_of(&editor);
    let mut tree = Tree { state: Interaction::Idle, children: vec![State::Idle] };
    let out = editor.on_event(
        &mut tree,
        moved(110_000, 5_000),
        &layout,
        Point::new(110_000, 5_000),
        &ignored(2),
    );
    assert_eq!(out.status, Status::Ignored);
    assert_eq!(tree.children, vec![State::Idle]);
    let mut tree = fresh_tree(&editor);
    let out = editor.on_event(
        &mut tree,
        moved(110_000, 5_000),
        &layout,
        Point::new(110_000, 5_000),
        &ignored(1),
    );
    assert_eq!(out.status, Status::Ignored);
    assert_eq!(tree.children, vec![State::Idle, State::Idle]);
}

#[test]
fn a_press_on_the_empty_canvas_starts_a_pan() {
    let editor = two_nodes().scaling(2000).translation(Vector::new(5_000, 6_000));
    let mut tree = fresh_tree(&editor);
    assert_eq!(
        send(&editor, &mut tree, Input::ButtonPressed(Button::Left), 400_000, 300_000),
        (Status::Captured, vec![])
    );
    assert_eq!(
        tree.state,
        Interaction::Translating { started_at: Point::new(400_000, 300_000), offset: Vector::zero() }
    );
    // The pan is the distance on screen divided by the scale.
    assert_eq!(
        send(&editor, &mut tree, moved(420_000, 289_999), 420_000, 289_999),
        (Status::Captured, vec![])
    );
    assert_eq!(
        tree.state,
        Interaction::Translating {
            started_at: Point::new(400_000, 300_000),
            offset: Vector::new(10_000, -5_001),
        }
    );
    assert_eq!(
        send(&editor, &mut tree, Input::ButtonReleased(Button::Left), 420_000, 289_999),
        (Status::Captured, vec![Event::Translated(Vector::new(15_000, 999))])
    );
    assert_eq!(tree.state, Interaction::Idle);
}

#[test]
fn a_press_during_a_pan_is_not_consumed() {
    let editor = two_nodes();
    let panning =
        Interaction::Translating { started_at: Point::new(400_000, 300_000), offset: Vector::new(1, 2) };
    let mut tree = Tree { state: panning, children: editor.children() };
    assert_eq!(
        send(&editor, &mut tree, Input::ButtonPressed(Button::Left), 500_000, 300_000),
        (Status::Ignored, vec![])
    );
    assert_eq!(tree.state, panning);
}

#[test]
fn an_idle_canvas_ignores_moves_and_releases() {
    let editor = two_nodes();
    let mut tree = fresh_tree(&editor);
    assert_eq!(send(&editor, &mut tree, moved(400_000, 300_000), 400_000, 300_000).0, Status::Ignored);
    assert_eq!(
        send(&editor, &mut tree, Input::ButtonReleased(Button::Left), 400_000, 300_000),
        (Status::Ignored, vec![])
    );
    assert_eq!(
        send(&editor, &mut tree, Input::ButtonPressed(Button::Right), 400_000, 300_000),
        (Status::Ignored, vec![])
    );
    assert_eq!(send(&editor, &mut tree, Input::Other, 400_000, 300_000), (Status::Ignored, vec![]));
    assert_eq!(tree.state, Interaction::Idle);
}

#[test]
fn the_canvas_reacts_only_to_a_cursor_within_its_bounds() {
    let editor = two_nodes();
    let mut tree = fresh_tree(&editor);
    assert_eq!(
        send(&editor, &mut tree, Input::ButtonPressed(Button::Left), 800_001, 300_000),
        (Status::Ignored, vec![])
    );
    assert_eq!(
        send(&editor, &mut tree, Input::WheelScrolled { y: 1000 }, -1, 300_000),
        (Status::Ignored, vec![])
    );
    assert_eq!(tree.state, Interaction::Idle);
    // The edge itself belongs to the canvas.
    assert_eq!(
        send(&editor, &mut tree, Input::ButtonPressed(Button::Left), 800_000, 600_000).0,
        Status::Captured
    );
}

#[test]
fn one_line_up_zooms_in_by_a_fifteenth() {
    let editor = two_nodes();
    let mut tree = fresh_tree(&editor);
    let (status, emitted) =
        send(&editor, &mut tree, Input::WheelScrolled { y: 1000 }, 150_000, 75_000);
    assert_eq!(status, Status::Captured);
    // 1000 * 16/15 = 1066.67, rounded up, away from the old scale; the
    // translation moves by cursor * 67 / 1000.
    assert_eq!(emitted, vec![Event::Scaled(1067, Vector::new(-10_050, -5_025))]);
    assert_eq!(tree.state, Interaction::Idle);
}

#[test]
fn one_line_down_zooms_out_by_a_fifteenth() {
    let editor = two_nodes().scaling(3000).translation(Vector::new(1_000, 2_000));
    let mut tree = fresh_tree(&editor);
    let (_, emitted) = send(&editor, &mut tree, Input::WheelScrolled { y: -1000 }, 90_000, 0);
    // 3000 * 14/15 = 2800; 90000 * (-200) * 1000 / 9000000 = -2000.
    assert_eq!(emitted, vec![Event::Scaled(2800, Vector::new(3_000, 2_000))]);
}

#[test]
fn the_scale_stops_at_its_bounds() {
    let editor = two_nodes().scaling(MAX_SCALING);
    let mut tree = fresh_tree(&editor);
    assert_eq!(
        send(&editor, &mut tree, Input::WheelScrolled { y: 1000 }, 150_000, 75_000),
        (Status::Ignored, vec![])
    );
    let (status, emitted) =
        send(&editor, &mut tree, Input::WheelScrolled { y: -1000 }, 150_000, 75_000);
    assert_eq!(status, Status::Captured);
    assert_eq!(emitted, vec![Event::Scaled(4666, Vector::new(2_004, 1_002))]);

    let editor = two_nodes().scaling(MIN_SCALING);
    assert_eq!(
        send(&editor, &mut tree, Input::WheelScrolled { y: -1000 }, 150_000, 75_000),
        (Status::Ignored, vec![])
    );
    let (status, emitted) = send(&editor, &mut tree, Input::WheelScrolled { y: 1000 }, 0, 0);
    assert_eq!(status, Status::Captured);
    assert_eq!(emitted, vec![Event::Scaled(107, Vector::new(0, 0))]);
}

#[test]
fn a_wheel_at_rest_changes_nothing() {
    let editor = two_nodes();
    let mut tree = fresh_tree(&editor);
    assert_eq!(
        send(&editor, &mut tree, Input::WheelScrolled { y: 0 }, 150_000, 75_000),
        (Status::Ignored, vec![])
    );
}

#[test]
fn an_overlong_turn_is_cut_at_the_bound() {
    let editor = two_nodes();
    let mut tree = fresh_tree(&editor);
    let (_, emitted) = send(&editor, &mut tree, Input::WheelScrolled { y: -20_000 }, 10_000, 0);
    assert_eq!(emitted, vec![Event::Scaled(MIN_SCALING, Vector::new(9_000, 0))]);
    let (_, emitted) = send(&editor, &mut tree, Input::WheelScrolled { y: i32::MAX }, 0, 0);
    assert_eq!(emitted, vec![Event::Scaled(MAX_SCALING, Vector::new(0, 0))]);
    let (_, emitted) = send(&editor, &mut tree, Input::WheelScrolled { y: i32::MIN }, 0, 0);
    assert_eq!(emitted, vec![Event::Scaled(MIN_SCALING, Vector::new(0, 0))]);
}

#[test]
fn scrolling_on_and_on_reaches_the_bound_and_stays() {
    let mut scaling = 1000;
    let mut events = 0;
    for _ in 0..200 {
        let editor = two_nodes().scaling(scaling);
        let mut tree = fresh_tree(&editor);
        let (_, emitted) = send(&editor, &mut tree, Input::WheelScrolled { y: 1000 }, 0, 0);
        for event in emitted {
            if let Event::Scaled(next, _) = event {
                assert!(MIN_SCALING <= next && next <= MAX_SCALING);
                assert!(next > scaling);
                scaling = next;
                events += 1;
            }
        }
    }
    assert_eq!(scaling, MAX_SCALING);
    assert!(events < 200);
}

#[test]
fn zoom_gives_the_scale_and_the_translation() {
    let transform = Transform { scaling: 1000, translation: Vector::new(100, 200) };
    assert_eq!(
        zoom(transform, 1000, Point::new(150_000, -75_000)),
        (1067, Vector::new(100 - 10_050, 200 + 5_025))
    );
    // With the cursor at the origin of the screen the translation stays.
    assert_eq!(zoom(transform, 3000, Point::new(0, 0)), (1200, Vector::new(100, 200)));
}

#[test]
fn the_cursor_hint_is_the_strongest_among_the_nodes() {
    let editor = two_nodes();
    let layout = layout_of(&editor);
    let dragging = State::Translating { started_at: Point::new(0, 0), offset: Vector::zero() };
    let hint = |children: Vec<State>| {
        editor.mouse_interaction(&Tree { state: Interaction::Idle, children }, &layout)
    };
    assert_eq!(hint(vec![State::Idle, State::Idle]), Affordance::Idle);
    assert_eq!(hint(vec![State::Hovered, State::Idle]), Affordance::Grab);
    assert_eq!(hint(vec![State::Hovered, dragging]), Affordance::Grabbing);
    assert_eq!(hint(vec![dragging, State::Hovered]), Affordance::Grabbing);
    assert_eq!(hint(vec![]), Affordance::Idle);
    // A state without a node gives no hint.
    assert_eq!(hint(vec![State::Idle, State::Idle, dragging]), Affordance::Idle);
}

#[test]
fn a_zoom_keeps_the_point_under_the_cursor_to_first_order() {
    let before = Transform { scaling: 1000, translation: Vector::zero() };
    let cursor = Point::new(150_000, 0);
    let (scaling, translation) = zoom(before, 1000, cursor);
    let after = Transform { scaling, translation };
    // The point under the cursor drifts by cursor * 67^2 / (1000^2 * 1.067),
    // about 0.6 of a pixel, where a zoom about the canvas origin would
    // have moved it by more than nine pixels.
    assert_eq!(scaling, 1067);
    assert_eq!(before.invert(cursor).x, 150_000);
    assert_eq!(after.invert(cursor).x, 150_631);
    let unanchored = Transform { scaling, translation: Vector::zero() };
    assert_eq!(unanchored.invert(cursor).x, 140_581);
}

#[test]
fn the_smallest_turn_moves_the_scale() {
    // A tenth of a line at the lowest scale: 100 * (1 + 0.1/15) = 100.67.
    let editor = two_nodes().scaling(MIN_SCALING);
    let mut tree = fresh_tree(&editor);
    let (status, emitted) = send(&editor, &mut tree, Input::WheelScrolled { y: 100 }, 0, 0);
    assert_eq!(status, Status::Captured);
    assert_eq!(emitted, vec![Event::Scaled(101, Vector::new(0, 0))]);
    // A thousandth of a line, up and down, at scale one.
    let at_one = Transform { scaling: 1000, translation: Vector::zero() };
    assert_eq!(zoom(at_one, 1, Point::new(0, 0)).0, 1001);
    assert_eq!(zoom(at_one, -1, Point::new(0, 0)).0, 999);
    assert_eq!(zoom(at_one, 0, Point::new(0, 0)).0, 1000);
    // A turn whose product is whole is not rounded further.
    assert_eq!(zoom(at_one, 15, Point::new(0, 0)).0, 1001);
    assert_eq!(zoom(at_one, 3000, Point::new(0, 0)).0, 1200);
    assert_eq!(zoom(at_one, -3000, Point::new(0, 0)).0, 800);
}

#[test]
fn small_turns_on_and_on_reach_either_bound() {
    for (y, bound) in [(100, MAX_SCALING), (-100, MIN_SCALING), (1, MAX_SCALING), (-1, MIN_SCALING)] {
        let mut scaling = if y > 0 { MIN_SCALING } else { MAX_SCALING };
        let mut turns = 0;
        loop {
            let editor = two_nodes().scaling(scaling);
            let mut tree = fresh_tree(&editor);
            let (status, emitted) = send(&editor, &mut tree, Input::WheelScrolled { y }, 0, 0);
            if status == Status::Ignored {
                assert_eq!(emitted, vec![]);
                break;
            }
            match emitted[..] {
                [Event::Scaled(next, _)] => {
                    assert!(if y > 0 { next > scaling } else { next < scaling });
                    assert!(MIN_SCALING <= next && next <= MAX_SCALING);
                    scaling = next;
                }
                _ => panic!("one new scale for each turn"),
            }
            turns += 1;
            assert!(turns <= MAX_SCALING - MIN_SCALING);
        }
        assert_eq!(scaling, bound);
    }
}
