use window_binder::base_rect::{AxisSpan, BaseRect};
use window_binder::binder::{Binder, ContentManager, DummyState, MouseState, TableContent};
use window_binder::content::{StringBinder, ValueSource};
use window_binder::figure::{Figure, WindowHandles};
use window_binder::math::{Length, Point, Size};
use window_binder::part_rect::{
    Anchor, AnchorKind, ButtonType, MinimizeOption, PartRect, PartType, ShowContentOption,
};
use window_binder::scroll_bar::{Fraction, ScrollBarState};

fn part(x: (i64, AnchorKind, i64, AnchorKind), y: (i64, AnchorKind, i64, AnchorKind), part_type: PartType, element_index: usize) -> PartRect {
    PartRect {
        x_start: Anchor::new(x.0, x.1),
        x_end: Anchor::new(x.2, x.3),
        y_start: Anchor::new(y.0, y.1),
        y_end: Anchor::new(y.2, y.3),
        color: String::new(),
        element_index,
        part_type,
        is_grabbed: false,
        is_pushed: false,
        internal_part_rect: Vec::new(),
        is_initialized: false,
        has_content: false,
    }
}

fn figure(x: i64, y: i64, width: Length, height: Length, parts: Vec<PartRect>, group_index: usize) -> Figure {
    Figure {
        base_rect: BaseRect::new(AxisSpan::new(x, width), AxisSpan::new(y, height), String::new(), 0),
        parts,
        is_grabbed: false,
        is_pushed: false,
        group_index,
    }
}

fn handles(first: usize, group_index: usize) -> WindowHandles {
    WindowHandles {
        group_index,
        base: first,
        scroll_area: first + 1,
        content: first + 2,
        scroll_bar_x: first + 3,
        scroll_bar_y: first + 4,
        title_background: first + 5,
        minimize_button: first + 6,
        show_content_button: first + 7,
    }
}

fn scroll_bar_x(p: &PartRect) -> ScrollBarState {
    match &p.internal_part_rect[1].part_type {
        PartType::ScrollBarX(s) => *s,
        _ => panic!("expected a horizontal scrollbar"),
    }
}

#[test]
fn grab_resolves_to_last_overlapping_part() {
    let parts = vec![
        part((0, AnchorKind::Start, 50, AnchorKind::Start), (0, AnchorKind::Start, 50, AnchorKind::Start), PartType::Drag, 1),
        part((5, AnchorKind::Start, 20, AnchorKind::Start), (5, AnchorKind::Start, 20, AnchorKind::Start), PartType::Expand, 2),
    ];
    let mut f = figure(0, 0, Length::new_with_min(100, 10), Length::new_with_min(100, 10), parts, 0);
    assert!(f.grab(10, 10));
    assert!(f.is_grabbed);
    assert!(!f.parts[0].is_grabbed);
    assert!(f.parts[1].is_grabbed);
    assert!(!f.base_rect.is_grabbed);
}

#[test]
fn grab_outside_parts_grabs_frame() {
    let parts = vec![part((0, AnchorKind::Start, 50, AnchorKind::Start), (0, AnchorKind::Start, 50, AnchorKind::Start), PartType::Drag, 1)];
    let mut f = figure(0, 0, Length::new_with_min(100, 10), Length::new_with_min(100, 10), parts, 0);
    assert!(f.grab(80, 80));
    assert!(f.base_rect.is_grabbed);
    assert!(!f.parts[0].is_grabbed);
}

#[test]
fn button_press_arms_without_grabbing() {
    let minimize = ButtonType::Minimize(MinimizeOption { minimized_width: 20, minimized_height: 0 });
    let parts = vec![PartRect::default_button(
        Anchor::new(-30, AnchorKind::End),
        Anchor::new(5, AnchorKind::Start),
        20,
        String::new(),
        4,
        minimize,
    )];
    let mut f = figure(100, 100, Length::new_with_min(200, 20), Length::new_with_min(300, 0), parts, 0);
    assert!(!f.grab(285, 110));
    assert!(f.is_pushed);
    assert!(f.parts[0].is_pushed);
    f.button_pressed(285, 110, &Vec::new());
    assert!(!f.is_pushed);
    assert!(!f.parts[0].is_pushed);
    assert_eq!(f.base_rect.width_value(), 20);
    assert_eq!(f.base_rect.height_value(), 0);
    assert_eq!(f.base_rect.x.far.value(), 120);
}

#[test]
fn button_release_off_button_does_nothing() {
    let minimize = ButtonType::Minimize(MinimizeOption { minimized_width: 20, minimized_height: 0 });
    let parts = vec![PartRect::default_button(
        Anchor::new(-30, AnchorKind::End),
        Anchor::new(5, AnchorKind::Start),
        20,
        String::new(),
        4,
        minimize,
    )];
    let mut f = figure(100, 100, Length::new_with_min(200, 20), Length::new_with_min(300, 0), parts, 0);
    f.grab(285, 110);
    f.button_pressed(150, 300, &Vec::new());
    assert!(!f.is_pushed);
    assert!(!f.parts[0].is_pushed);
    assert_eq!(f.base_rect.width_value(), 200);
}

#[test]
fn motion_off_button_cancels_press() {
    let parts = vec![PartRect::default_button(
        Anchor::new(-30, AnchorKind::End),
        Anchor::new(5, AnchorKind::Start),
        20,
        String::new(),
        4,
        ButtonType::ShowContent(ShowContentOption {}),
    )];
    let mut f = figure(100, 100, Length::new_with_min(200, 20), Length::new_with_min(300, 0), parts, 0);
    f.grab(285, 110);
    f.move_xy(Point { x: 285, y: 110 }, Point { x: 2, y: 2 }, &Vec::new());
    assert!(f.is_pushed);
    f.move_xy(Point { x: 285, y: 110 }, Point { x: -100, y: 0 }, &Vec::new());
    assert!(!f.is_pushed);
    assert!(!f.parts[0].is_pushed);
}

#[test]
fn show_content_grows_frame_to_content() {
    let mut f = Figure::default_window(
        0,
        0,
        Length::new_with_min(200, 150),
        Length::new_with_min(300, 30),
        "status".to_string(),
        "#333".to_string(),
        5,
        25,
        PartType::TableContent("status".to_string()),
        handles(0, 0),
    );
    let mut rendered: Vec<Option<Size>> = vec![None; 8];
    rendered[2] = Some(Size::new(300, 120));
    assert!(!f.grab(180, 10));
    assert!(f.is_pushed);
    f.button_pressed(180, 10, &rendered);
    assert_eq!(f.base_rect.width_value(), 328);
    assert_eq!(f.base_rect.height_value(), 170);
    assert_eq!(f.base_rect.x_value(), 0);
}

#[test]
fn drag_part_moves_whole_figure() {
    let parts = vec![part((0, AnchorKind::Start, 0, AnchorKind::End), (0, AnchorKind::Start, 20, AnchorKind::Start), PartType::Drag, 1)];
    let mut f = figure(100, 100, Length::new_with_min(200, 80), Length::new_with_min(300, 80), parts, 0);
    assert!(f.grab(150, 110));
    f.move_xy(Point { x: 150, y: 110 }, Point { x: 40, y: 15 }, &Vec::new());
    assert_eq!(f.base_rect.x_value(), 140);
    assert_eq!(f.base_rect.y_value(), 115);
    assert_eq!(f.base_rect.width_value(), 200);
    f.update_base();
    assert!(!f.is_grabbed);
    assert!(!f.parts[0].is_grabbed);
    assert_eq!(f.base_rect.x.near.base, 140);
    assert_eq!(f.base_rect.x.near.delta, 0);
    assert_eq!(f.parts[0].x_value(&f.base_rect), 140);
}

#[test]
fn figure_is_inner_allows_slop() {
    let f = figure(100, 100, Length::new_with_min(200, 80), Length::new_with_min(300, 80), Vec::new(), 0);
    assert!(f.is_inner(98, 100));
    assert!(f.is_inner(302, 402));
    assert!(!f.is_inner(97, 100));
    assert!(!f.is_inner(200, 403));
}

#[test]
fn scrollable_thumb_tracks_content_and_drag() {
    let mut area = part((0, AnchorKind::Start, 0, AnchorKind::End), (0, AnchorKind::Start, 0, AnchorKind::End), PartType::Scrollable, 3);
    area.internal_part_rect.push(part(
        (0, AnchorKind::Start, 0, AnchorKind::Ignore),
        (0, AnchorKind::Start, 0, AnchorKind::Ignore),
        PartType::TableContent("log".to_string()),
        0,
    ));
    area.internal_part_rect.push(part(
        (0, AnchorKind::Start, 0, AnchorKind::Ignore),
        (-10, AnchorKind::End, 0, AnchorKind::End),
        PartType::ScrollBarX(ScrollBarState::new()),
        1,
    ));
    let mut f = figure(0, 0, Length::new_with_min(200, 10), Length::new_with_min(200, 10), vec![area], 0);
    let rendered = vec![Some(Size::new(390, 50))];
    f.grab(0, 195);
    f.move_xy(Point { x: 0, y: 195 }, Point { x: 0, y: 0 }, &rendered);
    assert_eq!(scroll_bar_x(&f.parts[0]).length, 100);
    f.update_base();
    assert!(f.grab(50, 195));
    f.move_xy(Point { x: 50, y: 195 }, Point { x: 50, y: 0 }, &rendered);
    let bar = scroll_bar_x(&f.parts[0]);
    assert_eq!(bar.length, 100);
    assert_eq!(bar.percentage, Fraction::new(50, 100));
    assert_eq!(bar.start_amount.value(), 50);
}

#[test]
fn scene_resize_from_near_corner_and_commit() {
    let mut scene = Binder::new();
    scene.add_figure(figure(100, 100, Length::new_with_min(200, 80), Length::new_with_min(300, 80), Vec::new(), 7));
    assert_eq!(scene.mouse_down(100, 100, &Vec::new()), Some(7));
    assert!(scene.mouse_state.is_dragged);
    scene.mouse_move(80, 100, &Vec::new());
    let b = &scene.figures[0].base_rect;
    assert_eq!(b.width_value(), 220);
    assert_eq!(b.x_value(), 80);
    assert!(scene.update());
    assert!(!scene.update());
    scene.mouse_up(80, 100, &Vec::new());
    let b = &scene.figures[0].base_rect;
    assert_eq!(b.x.near.base, 80);
    assert_eq!(b.x.near.delta, 0);
    assert_eq!(b.x.length.amount.base, 220);
    assert_eq!(b.x.length.amount.delta, 0);
    assert!(!scene.mouse_state.is_dragged);
    assert!(scene.has_update);
}

#[test]
fn scene_pointer_down_during_drag_releases_first() {
    let parts = vec![part((0, AnchorKind::Start, 0, AnchorKind::End), (0, AnchorKind::Start, 20, AnchorKind::Start), PartType::Drag, 1)];
    let mut scene = Binder::new();
    scene.add_figure(figure(100, 100, Length::new_with_min(200, 80), Length::new_with_min(300, 80), parts, 0));
    scene.mouse_down(150, 110, &Vec::new());
    assert!(scene.mouse_state.is_dragged);
    assert!(scene.figures[0].parts[0].is_grabbed);
    scene.mouse_move(170, 110, &Vec::new());
    assert_eq!(scene.figures[0].base_rect.x_value(), 120);
    assert_eq!(scene.mouse_down(5000, 5000, &Vec::new()), None);
    assert!(!scene.mouse_state.is_dragged);
    assert!(!scene.figures[0].is_grabbed);
    assert!(!scene.figures[0].parts[0].is_grabbed);
    assert_eq!(scene.figures[0].base_rect.x.near.base, 120);
}

#[test]
fn scene_brings_grabbed_figure_to_front() {
    let mut scene = Binder::new();
    scene.add_figure(figure(0, 0, Length::new_with_min(100, 10), Length::new_with_min(100, 10), Vec::new(), 10));
    scene.add_figure(figure(50, 50, Length::new_with_min(100, 10), Length::new_with_min(100, 10), Vec::new(), 11));
    assert_eq!(scene.figure_group_order, vec![0, 1]);
    assert_eq!(scene.mouse_down(120, 120, &Vec::new()), Some(11));
    assert_eq!(scene.figure_group_order, vec![1, 0]);
    scene.mouse_up(120, 120, &Vec::new());
    assert_eq!(scene.mouse_down(75, 75, &Vec::new()), Some(11));
    assert!(scene.figures[1].is_grabbed);
    assert!(!scene.figures[0].is_grabbed);
}

#[test]
fn scene_move_without_gesture_is_ignored() {
    let mut scene = Binder::new();
    scene.add_figure(figure(100, 100, Length::new_with_min(200, 80), Length::new_with_min(300, 80), Vec::new(), 0));
    scene.mouse_move(10, 10, &Vec::new());
    assert!(!scene.has_update);
    assert_eq!(scene.figures[0].base_rect.x_value(), 100);
}

#[test]
fn scene_clamps_extreme_pointer() {
    let mut scene = Binder::new();
    scene.add_figure(figure(0, 0, Length::new_with_min(200, 80), Length::new_with_min(300, 80), Vec::new(), 0));
    scene.mouse_down(1, 1, &Vec::new());
    scene.mouse_move(i64::MIN, i64::MIN, &Vec::new());
    assert_eq!(scene.figures[0].base_rect.x_value(), 0);
    assert_eq!(scene.figures[0].base_rect.width_value(), 200);
    scene.mouse_up(i64::MAX, i64::MAX, &Vec::new());
    assert!(!scene.mouse_state.is_dragged);
}

#[test]
fn dev_scene_layout() {
    let scene = Binder::new_for_dev(handles(0, 0), handles(8, 1), handles(16, 2));
    assert_eq!(scene.figures.len(), 3);
    assert_eq!(scene.figure_group_order, vec![0, 1, 2]);
    assert_eq!(scene.figures[1].base_rect.x_value(), 350);
    assert_eq!(scene.figures[2].base_rect.y_value(), 650);
    assert_eq!(scene.figures[2].base_rect.width_value(), 1000);
    assert_eq!(scene.figures[0].base_rect.height_value(), 300);
    assert_eq!(scene.figures[0].parts.len(), 4);
    assert!(matches!(scene.figures[0].parts[1].part_type, PartType::Title(ref t) if t == "プレイヤー1"));
    assert_eq!(scene.figures[0].parts[2].x_value(&scene.figures[0].base_rect), 250);
    assert_eq!(scene.figures[0].parts[3].x_value(&scene.figures[0].base_rect), 275);
    assert_eq!(scene.figures[0].parts[0].y_value(&scene.figures[0].base_rect), 130);
}

#[test]
fn content_manager_and_table_source() {
    let mut manager = ContentManager::new();
    assert!(manager.get_tbody("status1").is_none());
    manager.table_content = Some(Box::new(DummyState {}));
    let rows = manager.get_tbody("status1").unwrap();
    assert_eq!(rows.len(), 3);
    assert_eq!(rows[1], vec!["HP/MHP".to_string(), "50/50".to_string()]);
    assert!(DummyState {}.get_thead("status1").is_empty());
    let mut scene = Binder::new();
    scene.set_dummy_state();
    assert!(scene.content_manager.get_tbody("log").is_some());
    assert!(!MouseState::new().is_dragged);
}

#[test]
fn string_binder_updates_on_change() {
    let mut b = StringBinder::new_with_str("50/50");
    assert_eq!(b.source, ValueSource::Literal);
    assert_eq!(b.get_value(), "50/50");
    assert!(!b.check_and_update_value());
    b.args_string[0] = "40/50".to_string();
    assert!(b.check_and_update_value());
    assert_eq!(b.current_value, "40/50");
    b.args_string.clear();
    assert_eq!(b.get_value(), "");
    assert!(b.check_and_update_value());
    assert_eq!(b.current_value, "");
}

#[test]
fn minimized_window_hides_both_scrollbars() {
    let mut f = Figure::default_window(
        0,
        0,
        Length::new_with_min(200, 150),
        Length::new_with_min(300, 30),
        "status".to_string(),
        "#333".to_string(),
        5,
        25,
        PartType::TableContent("status".to_string()),
        handles(0, 0),
    );
    assert!(!f.grab(160, 10));
    f.button_pressed(160, 10, &Vec::new());
    assert_eq!(f.base_rect.width_value(), 150);
    assert_eq!(f.base_rect.height_value(), 30);
    assert_eq!(f.parts[0].height_value(&f.base_rect), -5);
    let view = f.parts[0].scroll_view(&f.base_rect, Size::new(300, 300));
    assert!(!view.show_x);
    assert!(!view.show_y);
    assert_eq!(view.offset_y, 0);
}

#[test]
fn frame_resize_commits_every_scrollbar_offset() {
    let mut area = part((0, AnchorKind::Start, -50, AnchorKind::End), (0, AnchorKind::Start, 0, AnchorKind::End), PartType::Scrollable, 3);
    area.internal_part_rect.push(part(
        (0, AnchorKind::Start, 0, AnchorKind::Ignore),
        (0, AnchorKind::Start, 0, AnchorKind::Ignore),
        PartType::TableContent("log".to_string()),
        0,
    ));
    let mut bar = ScrollBarState::new();
    bar.percentage = Fraction::new(1, 2);
    area.internal_part_rect.push(part(
        (0, AnchorKind::Start, 0, AnchorKind::Ignore),
        (-10, AnchorKind::End, 0, AnchorKind::End),
        PartType::ScrollBarX(bar),
        1,
    ));
    let mut f = figure(0, 0, Length::new_with_min(200, 10), Length::new_with_min(200, 10), vec![area], 0);
    let rendered = vec![Some(Size::new(390, 50))];
    assert!(f.grab(190, 100));
    assert!(f.base_rect.is_grabbed);
    f.move_xy(Point { x: 190, y: 100 }, Point { x: 0, y: 0 }, &rendered);
    let moved = scroll_bar_x(&f.parts[0]);
    assert_eq!(moved.length, 56);
    assert_eq!(moved.start_amount.value(), 47);
    assert_eq!(moved.start_amount.delta, 47);
    f.update_base();
    let committed = scroll_bar_x(&f.parts[0]);
    assert_eq!(committed.start_amount.base, 47);
    assert_eq!(committed.start_amount.delta, 0);
    assert!(!f.base_rect.is_grabbed);
}

#[test]
fn scene_move_during_press_is_ignored() {
    let parts = vec![PartRect::default_button(
        Anchor::new(-30, AnchorKind::End),
        Anchor::new(5, AnchorKind::Start),
        20,
        String::new(),
        4,
        ButtonType::ShowContent(ShowContentOption {}),
    )];
    let mut scene = Binder::new();
    scene.add_figure(figure(100, 100, Length::new_with_min(200, 20), Length::new_with_min(300, 0), parts, 0));
    scene.mouse_down(285, 110, &Vec::new());
    assert!(scene.mouse_state.is_button_pushed);
    assert!(!scene.mouse_state.is_dragged);
    assert!(scene.update());
    scene.mouse_move(10, 10, &Vec::new());
    assert!(!scene.has_update);
    assert!(scene.figures[0].is_pushed);
    assert!(scene.figures[0].parts[0].is_pushed);
}
