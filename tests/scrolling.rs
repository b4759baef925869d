use window_binder::base_rect::{AxisSpan, BaseRect};
use window_binder::math::{Length, Point, Size};
use window_binder::part_rect::{Anchor, AnchorKind, PartRect, PartType};
use window_binder::scroll_bar::{Fraction, ScrollBarState};

fn frame(width: i64, height: i64) -> BaseRect {
    BaseRect::new(
        AxisSpan::new(0, Length::new_with_min(width, 10)),
        AxisSpan::new(0, Length::new_with_min(height, 10)),
        String::new(),
        0,
    )
}

fn part(x: (i64, AnchorKind, i64, AnchorKind), y: (i64, AnchorKind, i64, AnchorKind), part_type: PartType, element_index: usize) -> PartRect {
    PartRect {
        x_start: Anchor::new(x.0, x.1),
        x_end: Anchor::new(x.2, x.3),
        y_start: Anchor::new(y.0, y.1),
        y_end: Anchor::new(y.2, y.3),
        color: String::new(),
        element_index,
        part_type,
        is_grabbed: false,
        is_pushed: false,
        internal_part_rect: Vec::new(),
        is_initialized: false,
        has_content: false,
    }
}

fn scrollable() -> PartRect {
    let mut area = part((0, AnchorKind::Start, 0, AnchorKind::End), (0, AnchorKind::Start, 0, AnchorKind::End), PartType::Scrollable, 3);
    area.internal_part_rect.push(part(
        (0, AnchorKind::Start, 0, AnchorKind::Ignore),
        (0, AnchorKind::Start, 0, AnchorKind::Ignore),
        PartType::TableContent("log".to_string()),
        0,
    ));
    area.internal_part_rect.push(part(
        (0, AnchorKind::Start, 0, AnchorKind::Ignore),
        (-10, AnchorKind::End, 0, AnchorKind::End),
        PartType::ScrollBarX(ScrollBarState::new()),
        1,
    ));
    area.internal_part_rect.push(part(
        (-10, AnchorKind::End, 0, AnchorKind::End),
        (0, AnchorKind::Start, 0, AnchorKind::Ignore),
        PartType::ScrollBarY(ScrollBarState::new()),
        2,
    ));
    area
}

fn bar_x(p: &PartRect) -> ScrollBarState {
    match &p.internal_part_rect[1].part_type {
        PartType::ScrollBarX(s) => *s,
        _ => panic!("expected a horizontal scrollbar"),
    }
}

fn bar_y(p: &PartRect) -> ScrollBarState {
    match &p.internal_part_rect[2].part_type {
        PartType::ScrollBarY(s) => *s,
        _ => panic!("expected a vertical scrollbar"),
    }
}

#[test]
fn update_hides_bar_when_content_fits() {
    let mut s = ScrollBarState::new();
    s.update(150, 200);
    assert_eq!(s.length, 0);
    s.update(200, 200);
    assert_eq!(s.length, 0);
    s.update(300, 0);
    assert_eq!(s.length, 0);
}

#[test]
fn update_thumb_shorter_than_viewport() {
    let mut s = ScrollBarState::new();
    s.update(400, 200);
    assert_eq!(s.length, 100);
    s.update(201, 200);
    assert_eq!(s.length, 199);
    assert!(s.length > 0 && s.length < 200);
    s.update(1_000_000, 200);
    assert_eq!(s.length, 0);
}

#[test]
fn half_fraction_centres_thumb() {
    let mut s = ScrollBarState::new();
    s.update(400, 200);
    assert_eq!(s.length, 100);
    s.percentage = Fraction::new(1, 2);
    s.update(400, 200);
    assert_eq!(s.length, 100);
    assert_eq!(s.start_amount.value(), 50);
    s.update(300, 150);
    assert_eq!(s.length, 75);
    assert_eq!(s.start_amount.value(), 37);
}

#[test]
fn drag_derives_fraction_and_clamps() {
    let mut s = ScrollBarState::new();
    s.update(400, 200);
    s.drag(50, 200);
    assert_eq!(s.start_amount.value(), 50);
    assert_eq!(s.percentage, Fraction::new(50, 100));
    s.drag(500, 200);
    assert_eq!(s.start_amount.value(), 100);
    assert_eq!(s.percentage, Fraction::new(100, 100));
    s.drag(-500, 200);
    assert_eq!(s.start_amount.value(), 0);
    assert_eq!(s.percentage, Fraction::new(0, 100));
    s.drag(10, 100);
    assert_eq!(s.start_amount.value(), 0);
    assert_eq!(s.percentage, Fraction::zero());
}

#[test]
fn update_delta_in_constraint_clamps_both_ways() {
    let mut s = ScrollBarState::new();
    s.start_amount.base = 20;
    s.start_amount.delta = -30;
    s.update_delta_in_constraint(0, 50);
    assert_eq!(s.start_amount.value(), 0);
    s.start_amount.delta = 40;
    s.update_delta_in_constraint(0, 50);
    assert_eq!(s.start_amount.value(), 50);
    s.start_amount.delta = 5;
    s.update_delta_in_constraint(0, 50);
    assert_eq!(s.start_amount.value(), 25);
}

#[test]
fn scrollable_content_sizes_thumb_and_drag_sets_fraction() {
    let base = frame(200, 200);
    let mut area = scrollable();
    let rendered = vec![Some(Size::new(390, 100))];
    area.refresh_scroll_bars(&base, &rendered);
    assert_eq!(bar_x(&area).length, 100);
    assert_eq!(bar_y(&area).length, 0);
    assert!(area.grab(50, 195, &base));
    assert!(area.internal_part_rect[1].is_grabbed);
    area.drag_grabbed_bar(Point { x: 50, y: 0 }, &base);
    assert_eq!(bar_x(&area).percentage, Fraction::new(50, 100));
    assert_eq!(bar_x(&area).start_amount.value(), 50);
    area.update_base();
    assert!(!area.is_grabbed);
    assert!(!area.internal_part_rect[1].is_grabbed);
    assert_eq!(bar_x(&area).start_amount.base, 50);
    assert_eq!(bar_x(&area).start_amount.delta, 0);
}

#[test]
fn scrollable_ignores_press_off_its_bars() {
    let base = frame(200, 200);
    let mut area = scrollable();
    let rendered = vec![Some(Size::new(390, 100))];
    area.refresh_scroll_bars(&base, &rendered);
    assert!(!area.grab(150, 50, &base));
    assert!(!area.is_grabbed);
    assert!(!area.internal_part_rect[1].is_grabbed);
}

#[test]
fn scroll_view_shows_bar_and_offsets_content() {
    let base = frame(200, 200);
    let mut area = scrollable();
    let rendered = vec![Some(Size::new(390, 100))];
    area.refresh_scroll_bars(&base, &rendered);
    let view = area.scroll_view(&base, Size::new(390, 100));
    assert!(view.show_x);
    assert!(!view.show_y);
    assert_eq!(view.offset_x, 0);
    area.grab(50, 195, &base);
    area.drag_grabbed_bar(Point { x: 50, y: 0 }, &base);
    let view = area.scroll_view(&base, Size::new(390, 100));
    assert_eq!(view.offset_x, 100);
    let fits = area.scroll_view(&base, Size::new(150, 150));
    assert!(!fits.show_x);
    assert!(!fits.show_y);
    assert_eq!(fits.offset_x, 0);
}

#[test]
fn internal_content_size_reads_table_content() {
    let area = scrollable();
    let rendered = vec![Some(Size::new(390, 100))];
    assert_eq!(area.get_internal_content_size(&rendered), Some((Size::new(390, 100), 0)));
    assert_eq!(area.get_internal_content_size(&vec![None]), None);
    assert_eq!(area.get_internal_content_size(&Vec::new()), None);
}

#[test]
fn part_is_inner_on_closed_bounds() {
    let base = frame(200, 200);
    let p = part((10, AnchorKind::Start, -10, AnchorKind::End), (20, AnchorKind::Start, 40, AnchorKind::Start), PartType::Expand, 0);
    assert_eq!(p.x_value(&base), 10);
    assert_eq!(p.width_value(&base), 180);
    assert_eq!(p.y_value(&base), 20);
    assert_eq!(p.height_value(&base), 20);
    assert!(p.is_inner(10, 30, &base));
    assert!(p.is_inner(190, 30, &base));
    assert!(p.is_inner(100, 20, &base));
    assert!(p.is_inner(100, 40, &base));
    assert!(!p.is_inner(9, 30, &base));
    assert!(!p.is_inner(191, 30, &base));
    assert!(!p.is_inner(100, 41, &base));
}
