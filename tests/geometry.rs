use window_binder::base_rect::{AxisSpan, BaseRect};
use window_binder::math::{clamp_i64, rendered_size, Amount, Length, Point, Size, COORD_LIMIT};

fn frame(x: i64, y: i64, width: Length, height: Length) -> BaseRect {
    BaseRect::new(AxisSpan::new(x, width), AxisSpan::new(y, height), String::new(), 0)
}

#[test]
fn amount_update_base_twice_keeps_value() {
    let mut a = Amount::new(10);
    a.delta = 7;
    assert_eq!(a.value(), 17);
    a.update_base();
    assert_eq!(a.base, 17);
    assert_eq!(a.delta, 0);
    let once = a;
    a.update_base();
    assert_eq!(a, once);
    assert_eq!(a.value(), 17);
}

#[test]
fn amount_new_has_no_delta() {
    let a = Amount::new(-4);
    assert_eq!(a.base, -4);
    assert_eq!(a.delta, 0);
    assert_eq!(a.value(), -4);
}

#[test]
fn length_value_never_below_min() {
    let mut l = Length::new_with_min(200, 80);
    assert_eq!(l.value(), 200);
    l.amount.delta = -1_000_000;
    assert_eq!(l.value(), 80);
    l.delta_constraint();
    assert_eq!(l.amount.delta, -120);
    assert_eq!(l.value(), 80);
    l.amount.delta = -500;
    l.fix();
    assert_eq!(l.amount.base, 80);
    assert_eq!(l.amount.delta, 0);
    assert_eq!(l.value(), 80);
}

#[test]
fn length_delta_constraint_keeps_allowed_delta() {
    let mut l = Length::new_with_min(200, 80);
    l.amount.delta = -50;
    l.delta_constraint();
    assert_eq!(l.amount.delta, -50);
    assert_eq!(l.value(), 150);
    l.fix();
    assert_eq!(l.amount.base, 150);
}

#[test]
fn resize_from_near_edge_grows_and_commits() {
    let mut b = frame(100, 100, Length::new_with_min(200, 80), Length::new_with_min(300, 80));
    assert_eq!(b.x.far.value(), 300);
    b.move_xy(Point { x: 100, y: 100 }, Point { x: -20, y: 0 }, false);
    assert_eq!(b.width_value(), 220);
    assert_eq!(b.x_value(), 80);
    assert_eq!(b.x.far.value(), 300);
    b.update_base();
    assert_eq!(b.x.near.base, 80);
    assert_eq!(b.x.near.delta, 0);
    assert_eq!(b.x.length.amount.base, 220);
    assert_eq!(b.x.length.amount.delta, 0);
    assert_eq!(b.height_value(), 300);
    assert_eq!(b.y_value(), 100);
}

#[test]
fn resize_huge_negative_delta_clamps() {
    let mut b = frame(100, 100, Length::new_with_min(200, 80), Length::new_with_min(300, 80));
    b.move_xy(Point { x: 290, y: 390 }, Point { x: -2 * COORD_LIMIT, y: -2 * COORD_LIMIT }, false);
    assert_eq!(b.width_value(), 80);
    assert_eq!(b.height_value(), 80);
    assert_eq!(b.x_value(), 100);
    b.update_base();
    assert_eq!(b.x.length.amount.base, 80);
    let mut c = frame(100, 100, Length::new_with_min(200, 80), Length::new_with_min(300, 80));
    c.move_xy(Point { x: 101, y: 101 }, Point { x: 2 * COORD_LIMIT, y: 0 }, false);
    assert_eq!(c.width_value(), 80);
    assert_eq!(c.x_value(), 220);
    c.move_xy(Point { x: 101, y: 101 }, Point { x: -2 * COORD_LIMIT, y: 0 }, false);
    assert_eq!(c.x_value(), 0);
    assert_eq!(c.width_value(), 300);
}

#[test]
fn drag_translates_and_stops_at_zero() {
    let mut b = frame(100, 100, Length::new_with_min(200, 80), Length::new_with_min(300, 80));
    b.move_xy(Point { x: 150, y: 150 }, Point { x: 30, y: -40 }, true);
    assert_eq!(b.x_value(), 130);
    assert_eq!(b.x.far.value(), 330);
    assert_eq!(b.y_value(), 60);
    assert_eq!(b.width_value(), 200);
    b.move_xy(Point { x: 150, y: 150 }, Point { x: -500, y: -500 }, true);
    assert_eq!(b.x_value(), 0);
    assert_eq!(b.y_value(), 0);
    assert_eq!(b.x.far.value(), 200);
}

#[test]
fn fixed_axis_does_not_move() {
    let mut b = frame(100, 100, Length::new_with_min(200, 80), Length::new_with_min(300, 80));
    b.x.fixed = true;
    b.move_xy(Point { x: 150, y: 150 }, Point { x: 30, y: 40 }, true);
    assert_eq!(b.x_value(), 100);
    assert_eq!(b.y_value(), 140);
}

#[test]
fn fixed_length_drags_instead_of_resizing() {
    let mut width = Length::new_with_min(200, 80);
    width.is_fixed = true;
    let mut b = frame(100, 100, width, Length::new_with_min(300, 80));
    b.move_xy(Point { x: 100, y: 390 }, Point { x: 25, y: 0 }, false);
    assert_eq!(b.x_value(), 125);
    assert_eq!(b.width_value(), 200);
}

#[test]
fn near_point_prefers_edge_in_progress_and_ties_to_far() {
    let mut axis = AxisSpan::new(100, Length::new_with_min(200, 80));
    assert_eq!(axis.near_point(150), 0);
    assert_eq!(axis.near_point(250), 1);
    assert_eq!(axis.near_point(200), 1);
    axis.move_by(110, -20, false);
    assert_eq!(axis.near.value(), 80);
    assert_eq!(axis.near_point(290), 0);
}

#[test]
fn far_edge_resize_moves_far_edge() {
    let mut axis = AxisSpan::new(100, Length::new_with_min(200, 80));
    axis.move_by(290, 40, false);
    assert_eq!(axis.far.value(), 340);
    assert_eq!(axis.length.value(), 240);
    assert_eq!(axis.near.value(), 100);
    assert_eq!(axis.near_point(100), 1);
}

#[test]
fn set_length_clamps_to_min() {
    let mut axis = AxisSpan::new(100, Length::new_with_min(200, 80));
    axis.set_length(10);
    assert_eq!(axis.length.value(), 80);
    assert_eq!(axis.far.value(), 180);
    axis.set_length(500);
    assert_eq!(axis.length.value(), 500);
    assert_eq!(axis.far.value(), 600);
}

#[test]
fn clamp_and_rendered_size_lookup() {
    assert_eq!(clamp_i64(5, 0, 3), 3);
    assert_eq!(clamp_i64(-5, 0, 3), 0);
    assert_eq!(clamp_i64(2, 0, 3), 2);
    let rendered = vec![None, Some(Size::new(40, -3)), Some(Size::new(i64::MAX, 7))];
    assert_eq!(rendered_size(&rendered, 0), None);
    assert_eq!(rendered_size(&rendered, 1), Some(Size::new(40, 0)));
    assert_eq!(rendered_size(&rendered, 2), Some(Size::new(COORD_LIMIT, 7)));
    assert_eq!(rendered_size(&rendered, 9), None);
    assert_eq!(Point::new(), Point { x: 0, y: 0 });
}

#[test]
fn axis_raises_short_length_to_min() {
    let axis = AxisSpan::new(10, Length::new_with_min(50, 80));
    assert_eq!(axis.length.value(), 80);
    assert_eq!(axis.length.amount.base, 80);
    assert_eq!(axis.far.value(), 90);
    let b = frame(10, 10, Length::new_with_min(50, 80), Length::new_with_min(100, 0));
    assert_eq!(b.width_value(), 80);
    assert_eq!(b.height_value(), 100);
}
