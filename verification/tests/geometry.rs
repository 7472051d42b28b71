use iced_graph_editor::fixed::{div_floor, saturating, UNIT};
use iced_graph_editor::geometry::{Padding, Point, Rectangle, Size, Vector};
use iced_graph_editor::layout::Limits;
use iced_graph_editor::transform::{
    clamp_scaling, scaled, unscaled, Transform, MAX_SCALING, MIN_SCALING,
};

fn px(value: f32) -> i32 {
    (value * UNIT as f32).round() as i32
}

#[test]
fn the_unit_is_a_thousandth() {
    assert_eq!(UNIT, 1000);
    assert_eq!(px(1.0), 1000);
    assert_eq!(px(0.1), MIN_SCALING);
    assert_eq!(px(5.0), MAX_SCALING);
}

#[test]
fn saturating_clamps_into_the_coordinate_range() {
    assert_eq!(saturating(0), 0);
    assert_eq!(saturating(-17), -17);
    assert_eq!(saturating(i32::MAX as i64), i32::MAX);
    assert_eq!(saturating(i32::MAX as i64 + 1), i32::MAX);
    assert_eq!(saturating(i64::MAX), i32::MAX);
    assert_eq!(saturating(i32::MIN as i64 - 1), i32::MIN);
    assert_eq!(saturating(i64::MIN), i32::MIN);
}

#[test]
fn div_floor_rounds_towards_negative_infinity() {
    assert_eq!(div_floor(7, 2), 3);
    assert_eq!(div_floor(8, 2), 4);
    assert_eq!(div_floor(0, 5), 0);
    assert_eq!(div_floor(-1, 2), -1);
    assert_eq!(div_floor(-7, 2), -4);
    assert_eq!(div_floor(-8, 2), -4);
    assert_eq!(div_floor(-1, 1000), -1);
    assert_eq!(div_floor(-1000, 1000), -1);
    assert_eq!(div_floor(-1001, 1000), -2);
}

#[test]
fn points_and_vectors_add_up() {
    let p = Point::new(3, 4);
    let q = Point::new(10, -6);
    assert_eq!(q.vector_from(p), Vector::new(7, -10));
    assert_eq!(p.translate(Vector::new(7, -10)), q);
    assert_eq!(Vector::new(1, 2).plus(Vector::new(30, 40)), Vector::new(31, 42));
    assert_eq!(Point::origin(), Point::new(0, 0));
    assert_eq!(Vector::zero(), Vector::new(0, 0));
    assert_eq!(Size::zero(), Size::new(0, 0));
}

#[test]
fn sums_out_of_range_saturate() {
    let far = Point::new(i32::MAX, i32::MIN);
    assert_eq!(far.vector_from(Point::new(-1, 1)), Vector::new(i32::MAX, i32::MIN));
    assert_eq!(far.translate(Vector::new(5, -5)), far);
    assert_eq!(
        Vector::new(i32::MAX, i32::MIN).plus(Vector::new(1, -1)),
        Vector::new(i32::MAX, i32::MIN)
    );
}

#[test]
fn a_rectangle_contains_its_edges() {
    let r = Rectangle::new(Point::new(10, 20), Size::new(100, 50));
    assert!(r.contains(Point::new(10, 20)));
    assert!(r.contains(Point::new(110, 70)));
    assert!(r.contains(Point::new(60, 45)));
    assert!(!r.contains(Point::new(9, 20)));
    assert!(!r.contains(Point::new(10, 19)));
    assert!(!r.contains(Point::new(111, 70)));
    assert!(!r.contains(Point::new(110, 71)));
}

#[test]
fn a_rectangle_of_negative_extent_contains_nothing() {
    let r = Rectangle::new(Point::new(0, 0), Size::new(-1, 10));
    assert!(!r.contains(Point::new(0, 0)));
    assert!(!r.contains(Point::new(-1, 5)));
}

#[test]
fn contains_does_not_overflow_at_the_far_corner() {
    let r = Rectangle::new(Point::new(i32::MAX - 1, 0), Size::new(i32::MAX, 10));
    assert!(r.contains(Point::new(i32::MAX, 10)));
}

#[test]
fn a_rectangle_moves_and_shrinks() {
    let r = Rectangle::new(Point::new(0, 0), Size::new(px(800.0), px(600.0)));
    assert_eq!(
        r.translate(Vector::new(5, -5)),
        Rectangle { x: 5, y: -5, width: 800_000, height: 600_000 }
    );
    assert_eq!(r.inset(UNIT), Rectangle { x: 1000, y: 1000, width: 798_000, height: 598_000 });
    assert_eq!(r.position(), Point::new(0, 0));
    assert_eq!(r.size(), Size::new(800_000, 600_000));
}

#[test]
fn padding_is_counted_in_pixels() {
    let padding = Padding::new(20, 5, 5, 5);
    assert_eq!(padding.horizontal(), 10_000);
    assert_eq!(padding.vertical(), 25_000);
    assert_eq!(Size::new(100_000, 50_000).pad(padding), Size::new(110_000, 75_000));
    assert_eq!(Padding::new(u16::MAX, 0, u16::MAX, 0).vertical(), 131_070_000);
}

#[test]
fn limits_shrink_by_the_padding_but_not_below_zero() {
    let limits = Limits::new(Size::zero(), Size::new(300_000, 300_000));
    let inner = limits.pad(Padding::new(20, 5, 5, 5));
    assert_eq!(inner.min, Size::new(0, 0));
    assert_eq!(inner.max, Size::new(290_000, 275_000));
    let tight = Limits::new(Size::new(4_000, 30_000), Size::new(8_000, 30_000));
    let inner = tight.pad(Padding::new(20, 5, 5, 5));
    assert_eq!(inner.min, Size::new(0, 5_000));
    assert_eq!(inner.max, Size::new(0, 5_000));
}

#[test]
fn scaling_rounds_down() {
    assert_eq!(scaled(15_000, 2000), 30_000);
    assert_eq!(scaled(1, 500), 0);
    assert_eq!(scaled(-1, 500), -1);
    assert_eq!(unscaled(30_000, 2000), 15_000);
    assert_eq!(unscaled(1000, 3000), 333);
    assert_eq!(unscaled(-1000, 3000), -334);
}

#[test]
fn the_transform_translates_then_scales() {
    let t = Transform { scaling: 2000, translation: Vector::new(10_000, 20_000) };
    assert_eq!(t.apply(Point::new(5_000, 5_000)), Point::new(30_000, 50_000));
    assert_eq!(t.invert(Point::new(30_000, 50_000)), Point::new(5_000, 5_000));
}

#[test]
fn the_inverse_transform_rounds_down() {
    let t = Transform { scaling: 3000, translation: Vector::zero() };
    assert_eq!(t.invert(Point::new(-1000, 1000)), Point::new(-334, 333));
}

#[test]
fn the_identity_transform_changes_nothing() {
    let t = Transform { scaling: UNIT, translation: Vector::zero() };
    assert_eq!(t.apply(Point::new(123, -456)), Point::new(123, -456));
    assert_eq!(t.invert(Point::new(123, -456)), Point::new(123, -456));
}

#[test]
fn the_transform_saturates_at_the_range() {
    let t = Transform { scaling: MAX_SCALING, translation: Vector::new(i32::MAX, 0) };
    assert_eq!(t.apply(Point::new(i32::MAX, 0)).x, i32::MAX);
    let t = Transform { scaling: MIN_SCALING, translation: Vector::new(0, 0) };
    assert_eq!(t.invert(Point::new(i32::MAX, i32::MIN)), Point::new(i32::MAX, i32::MIN));
}

#[test]
fn a_scale_is_clamped_into_the_zoom_range() {
    assert_eq!(clamp_scaling(99), 100);
    assert_eq!(clamp_scaling(100), 100);
    assert_eq!(clamp_scaling(1234), 1234);
    assert_eq!(clamp_scaling(5000), 5000);
    assert_eq!(clamp_scaling(5001), 5000);
    assert_eq!(clamp_scaling(i32::MIN), 100);
    assert_eq!(clamp_scaling(i32::MAX), 5000);
}

#[test]
fn to_the_screen_and_back_loses_at_most_a_hundredth_of_a_pixel() {
    for scaling in [100, 101, 333, 999, 1000, 1066, 2500, 4999, 5000] {
        let t = Transform { scaling, translation: Vector::new(-7_003, 12_345) };
        for v in [-100_001, -1, 0, 1, 7, 999, 1000, 123_457] {
            let p = Point::new(v, -v);
            let back = t.invert(t.apply(p));
            assert!(p.x - 10 <= back.x && back.x <= p.x, "{scaling} {v}");
            assert!(p.y - 10 <= back.y && back.y <= p.y, "{scaling} {v}");
        }
    }
}
