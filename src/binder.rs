use vstd::prelude::*;
use crate::figure::{Figure, WindowHandles, SHOW_CONTENT_PADDING_X, SHOW_CONTENT_PADDING_Y};
use crate::math::{clamp_i64, clamp_int, in_coord_range, Point, Size, COORD_LIMIT};

verus! {

/// Pointer interaction state: whether a drag or a button press is under
/// way, and where the gesture started.
#[derive(Clone, Copy, Debug, PartialEq, Eq, Structural)]
pub struct MouseState {
    pub is_dragged: bool,
    pub is_button_pushed: bool,
    pub drag_start_point: Point,
}

impl MouseState {
    pub fn new() -> (r: MouseState)
        ensures
            !r.is_dragged,
            !r.is_button_pushed,
            r.drag_start_point == (Point { x: 0, y: 0 }),
    {
        MouseState { is_dragged: false, is_button_pushed: false, drag_start_point: Point::new() }
    }
}

/// Source of the rows shown in table content, implemented by the host.
pub trait TableContent {
    /// Header cells for the table keyed by `key`.
    fn get_thead(&self, key: &str) -> Vec<String> {
        Vec::new()
    }

    /// Body rows for the table keyed by `key`.
    fn get_tbody(&self, key: &str) -> Vec<Vec<String>> {
        let mut rows: Vec<Vec<String>> = Vec::new();
        rows.push(vec!["行動順".to_string(), "後攻".to_string()]);
        rows.push(vec!["HP/MHP".to_string(), "50/50".to_string()]);
        rows.push(vec!["被ダメ".to_string(), "5".to_string()]);
        rows
    }
}

/// A table source that serves the default rows for every key.
pub struct DummyState {}

impl TableContent for DummyState {}

/// Holds the host's table source, if one was set.
pub struct ContentManager {
    pub table_content: Option<Box<dyn TableContent>>,
}

impl ContentManager {
    /// An empty manager.
    pub fn new() -> (r: ContentManager)
        ensures
            r.table_content is None,
    {
        ContentManager { table_content: None }
    }

    /// The body rows for `key` from the table source; `None` when no source is set.
    pub fn get_tbody(&self, key: &str) -> (r: Option<Vec<Vec<String>>>)
        ensures
            r is Some <==> self.table_content is Some,
    {
        if let Some(content) = &self.table_content {
            Some(content.get_tbody(key))
        } else {
            None
        }
    }
}

/// Releasing a button keeps which figure and which parts are grabbed.
proof fn lemma_press_keeps_grabs(f: Figure, g: Figure, x: int, y: int, rendered: Seq<Option<Size>>)
    requires
        f.presses_to(g, x, y, rendered),
    ensures
        g.is_grabbed == f.is_grabbed,
        g.parts@.len() == f.parts@.len(),
        forall|k: int| 0 <= k < f.parts@.len() ==> (#[trigger] g.parts@[k]).is_grabbed == f.parts@[k].is_grabbed,
{
    if !(forall|k: int| 0 <= k < f.parts@.len() ==> !(#[trigger] f.parts@[k]).is_pushed) || g != (Figure { is_pushed: false, ..f }) {
        let (i, mid) = choose|i: int, mid: Figure| #[trigger] f.fires_press(i, mid, g, x, y, rendered);
        assert(forall|k: int| 0 <= k < f.parts@.len() ==> (#[trigger] mid.parts@[k]).is_grabbed == f.parts@[k].is_grabbed);
        if mid.shows_content_to(g, rendered) && g != mid {
            let j = choose|j: int| #[trigger] mid.first_shown_content_is(j, rendered) && {
                let size = mid.parts@[j].spec_internal_content_size(rendered)->Some_0.0;
                mid.resized_to(g, size.width + SHOW_CONTENT_PADDING_X, size.height + SHOW_CONTENT_PADDING_Y)
            };
        }
    }
}

/// A pointer-up releases every grab: afterwards no figure is grabbed, and
/// a figure that was grabbed has its frame and all of its parts released.
/// A pointer-down during a drag performs this pointer-up before it resolves
/// the new press, so the previously grabbed region is released first.
pub proof fn lemma_pointer_up_releases_grabs(s: Binder, new: Binder, x: int, y: int, rendered: Seq<Option<Size>>)
    requires
        s.ups_to(new, x, y, rendered),
    ensures
        !new.mouse_state.is_dragged,
        new.figures@.len() == s.figures@.len(),
        forall|k: int| 0 <= k < new.figures@.len() ==> !(#[trigger] new.figures@[k]).is_grabbed,
        forall|k: int| 0 <= k < s.figures@.len() && (#[trigger] s.figures@[k]).is_grabbed ==> {
            &&& !new.figures@[k].base_rect.is_grabbed
            &&& forall|j: int| 0 <= j < new.figures@[k].parts@.len() ==> !(#[trigger] new.figures@[k].parts@[j]).is_grabbed
        },
{
    let mid = choose|mid: Binder| #[trigger] s.releases_press_to(mid, x, y, rendered) && mid.commits_to(new);
    assert forall|k: int| 0 <= k < s.figures@.len() implies (#[trigger] mid.figures@[k]).is_grabbed == s.figures@[k].is_grabbed
        && mid.figures@[k].parts@.len() == s.figures@[k].parts@.len()
        && (forall|j: int| 0 <= j < s.figures@[k].parts@.len() ==> (#[trigger] mid.figures@[k].parts@[j]).is_grabbed == s.figures@[k].parts@[j].is_grabbed) by {
        if s.mouse_state.is_button_pushed && mid.figures@ != s.figures@ {
            let i = choose|i: int| {
                &&& 0 <= i < s.figures@.len()
                &&& #[trigger] s.figures@[i].is_pushed
                &&& forall|k: int| 0 <= k < i ==> !(#[trigger] s.figures@[k]).is_pushed
                &&& s.figures@[i].presses_to(mid.figures@[i], x, y, rendered)
                &&& forall|k: int| 0 <= k < s.figures@.len() && k != i ==> mid.figures@[k] == s.figures@[k]
            };
            if k == i {
                lemma_press_keeps_grabs(s.figures@[i], mid.figures@[i], x, y, rendered);
            }
        }
    }
    assert forall|k: int| 0 <= k < new.figures@.len() implies !(#[trigger] new.figures@[k]).is_grabbed by {
        assert(mid.figures@[k].updates_base_to(new.figures@[k]));
    }
    assert forall|k: int| 0 <= k < s.figures@.len() && (#[trigger] s.figures@[k]).is_grabbed implies {
        &&& !new.figures@[k].base_rect.is_grabbed
        &&& forall|j: int| 0 <= j < new.figures@[k].parts@.len() ==> !(#[trigger] new.figures@[k].parts@[j]).is_grabbed
    } by {
        let f = mid.figures@[k];
        assert(f.updates_base_to(new.figures@[k]));
        assert forall|j: int| 0 <= j < new.figures@[k].parts@.len() implies !(#[trigger] new.figures@[k].parts@[j]).is_grabbed by {
            assert(f.parts@[j].updates_base_to(new.figures@[k].parts@[j]));
        }
    }
}

/// A pointer coordinate clamped into the coordinate space.
pub open spec fn clamp_coord(v: int) -> int {
    clamp_int(v, -COORD_LIMIT as int, COORD_LIMIT as int)
}

/// The scene: every figure, the pointer state and the hit-testing order
/// (figure indices, the most recently grabbed first).
pub struct Binder {
    pub figures: Vec<Figure>,
    pub mouse_state: MouseState,
    pub has_update: bool,
    pub content_manager: ContentManager,
    pub figure_group_order: Vec<usize>,
}

impl Binder {
    pub open spec fn wf(&self) -> bool {
        &&& forall|i: int| 0 <= i < self.figures@.len() ==> (#[trigger] self.figures@[i]).wf()
        &&& forall|k: int| 0 <= k < self.figure_group_order@.len() ==> (#[trigger] self.figure_group_order@[k]) < self.figures@.len()
        &&& self.mouse_state.drag_start_point.in_range()
    }

    /// `new` differs from this scene at most in its figures and pointer
    /// state, and has as many figures.
    pub open spec fn same_scene_except_figures(self, new: Binder) -> bool {
        &&& new.figures@.len() == self.figures@.len()
        &&& new.figure_group_order@ == self.figure_group_order@
        &&& new.content_manager == self.content_manager
    }

    /// Release of an armed button at `(x, y)`: the first figure holding a
    /// press resolves it; the press flag of the scene is cleared.
    pub open spec fn releases_press_to(self, new: Binder, x: int, y: int, rendered: Seq<Option<Size>>) -> bool {
        &&& self.same_scene_except_figures(new)
        &&& new.has_update == self.has_update
        &&& new.mouse_state == (MouseState { is_button_pushed: false, ..self.mouse_state })
        &&& if !self.mouse_state.is_button_pushed {
            new.figures@ == self.figures@
        } else {
            ||| (forall|k: int| 0 <= k < self.figures@.len() ==> !(#[trigger] self.figures@[k]).is_pushed)
                && new.figures@ == self.figures@
            ||| exists|i: int| {
                &&& 0 <= i < self.figures@.len()
                &&& #[trigger] self.figures@[i].is_pushed
                &&& forall|k: int| 0 <= k < i ==> !(#[trigger] self.figures@[k]).is_pushed
                &&& self.figures@[i].presses_to(new.figures@[i], x, y, rendered)
                &&& forall|k: int| 0 <= k < self.figures@.len() && k != i ==> new.figures@[k] == self.figures@[k]
            }
        }
    }

    /// Commit of every figure's gesture; the drag ends and a sync is due.
    pub open spec fn commits_to(self, new: Binder) -> bool {
        &&& self.same_scene_except_figures(new)
        &&& new.has_update
        &&& new.mouse_state == (MouseState { is_dragged: false, ..self.mouse_state })
        &&& forall|k: int| 0 <= k < self.figures@.len() ==> (#[trigger] self.figures@[k]).updates_base_to(new.figures@[k])
    }

    /// What `mouse_up` does at the clamped point `(x, y)`.
    pub open spec fn ups_to(self, new: Binder, x: int, y: int, rendered: Seq<Option<Size>>) -> bool {
        exists|mid: Binder| #[trigger] self.releases_press_to(mid, x, y, rendered) && mid.commits_to(new)
    }

    /// The figure at position `pos` of the hit-testing order is the first
    /// one whose frame holds `(x, y)`.
    pub open spec fn first_hit_is(self, pos: int, x: int, y: int) -> bool {
        &&& 0 <= pos < self.figure_group_order@.len()
        &&& self.figures@[self.figure_group_order@[pos] as int].spec_is_inner(x, y)
        &&& forall|k: int| 0 <= k < pos ==> !self.figures@[#[trigger] self.figure_group_order@[k] as int].spec_is_inner(x, y)
    }

    /// A press at the clamped point `(x, y)`, with no drag under way: the
    /// first figure in hit-testing order under the pointer moves to the front
    /// of the order and resolves the press; a grab starts a drag from
    /// `(x, y)` and an armed button starts a press. Returns the moved
    /// figure's group index.
    pub open spec fn downs_to(self, new: Binder, x: int, y: int, r: Option<usize>) -> bool {
        &&& new.figures@.len() == self.figures@.len()
        &&& new.content_manager == self.content_manager
        &&& new.has_update
        &&& {
            ||| (forall|k: int| 0 <= k < self.figure_group_order@.len() ==> !self.figures@[#[trigger] self.figure_group_order@[k] as int].spec_is_inner(x, y))
                && r is None
                && new.figures@ == self.figures@
                && new.figure_group_order@ == self.figure_group_order@
                && new.mouse_state == self.mouse_state
            ||| exists|pos: int| #[trigger] self.first_hit_is(pos, x, y) && {
                let i = self.figure_group_order@[pos] as int;
                &&& r == Some(self.figures@[i].group_index)
                &&& new.figure_group_order@ == seq![i as usize] + self.figure_group_order@.remove(pos)
                &&& self.figures@[i].grabs_to(new.figures@[i], x, y)
                &&& forall|k: int| 0 <= k < self.figures@.len() && k != i ==> new.figures@[k] == self.figures@[k]
                &&& new.mouse_state.is_dragged == (self.mouse_state.is_dragged || new.figures@[i].is_grabbed)
                &&& new.mouse_state.is_button_pushed == (self.mouse_state.is_button_pushed || new.figures@[i].is_pushed)
                &&& new.mouse_state.drag_start_point == if new.figures@[i].is_grabbed {
                    Point { x: x as i64, y: y as i64 }
                } else {
                    self.mouse_state.drag_start_point
                }
            }
        }
    }

    /// What `mouse_move` does at the clamped point `(x, y)`: nothing unless a
    /// drag is under way; during a drag every figure receives the motion
    /// since the drag's start.
    pub open spec fn moves_to(self, new: Binder, x: int, y: int, rendered: Seq<Option<Size>>) -> bool {
        if !self.mouse_state.is_dragged {
            new == self
        } else {
            let start = self.mouse_state.drag_start_point;
            let delta = Point { x: (x - start.x) as i64, y: (y - start.y) as i64 };
            &&& self.same_scene_except_figures(new)
            &&& new.mouse_state == self.mouse_state
            &&& new.has_update
            &&& forall|k: int| 0 <= k < self.figures@.len() ==> (#[trigger] self.figures@[k]).moves_to(new.figures@[k], start, delta, rendered)
        }
    }

    /// An empty scene.
    pub fn new() -> (r: Binder)
        ensures
            r.wf(),
            r.figures@.len() == 0,
            r.figure_group_order@.len() == 0,
            !r.mouse_state.is_dragged,
            !r.mouse_state.is_button_pushed,
            !r.has_update,
            r.content_manager.table_content is None,
    {
        Binder {
            figures: Vec::new(),
            mouse_state: MouseState::new(),
            has_update: false,
            content_manager: ContentManager::new(),
            figure_group_order: Vec::new(),
        }
    }

    /// The demonstration scene: two status windows side by side and a log
    /// window below them, drawn with the given element handles.
    pub fn new_for_dev(first: WindowHandles, second: WindowHandles, log: WindowHandles) -> (r: Binder)
        ensures
            r.wf(),
            r.figures@.len() == 3,
            r.figure_group_order@ == seq![0usize, 1usize, 2usize],
            r.figures@[0].base_rect.spec_x_value() == 100 && r.figures@[0].base_rect.spec_y_value() == 100,
            r.figures@[1].base_rect.spec_x_value() == 350 && r.figures@[1].base_rect.spec_y_value() == 100,
            r.figures@[2].base_rect.spec_x_value() == 100 && r.figures@[2].base_rect.spec_y_value() == 650,
            r.figures@[0].group_index == first.group_index,
            r.figures@[1].group_index == second.group_index,
            r.figures@[2].group_index == log.group_index,
            !r.mouse_state.is_dragged,
            !r.mouse_state.is_button_pushed,
            !r.has_update,
    {
        let mut binder = Binder::new();
        let frame_color = "#333".to_string();
        binder.add_figure(Figure::new_window_dev(
            "プレイヤー1".to_string(),
            100,
            100,
            frame_color.clone(),
            "status1".to_string(),
            first,
        ));
        binder.add_figure(Figure::new_window_dev(
            "プレイヤー2".to_string(),
            350,
            100,
            frame_color.clone(),
            "status2".to_string(),
            second,
        ));
        binder.add_figure(Figure::new_log_window_dev(
            "ゲームログ".to_string(),
            100,
            650,
            frame_color,
            "log".to_string(),
            log,
        ));
        proof {
            assert(binder.figure_group_order@ =~= seq![0usize, 1usize, 2usize]);
        }
        binder
    }

    /// Sets the host's table source.
    pub fn set_table_content_state(&mut self, table_content: Box<dyn TableContent>)
        ensures
            final(self).content_manager.table_content is Some,
            final(self).figures == old(self).figures,
            final(self).mouse_state == old(self).mouse_state,
            final(self).has_update == old(self).has_update,
            final(self).figure_group_order == old(self).figure_group_order,
    {
        self.content_manager.table_content = Some(table_content);
    }

    /// Uses the default rows as the table source.
    pub fn set_dummy_state(&mut self)
        ensures
            final(self).content_manager.table_content is Some,
            final(self).figures == old(self).figures,
            final(self).mouse_state == old(self).mouse_state,
            final(self).has_update == old(self).has_update,
            final(self).figure_group_order == old(self).figure_group_order,
    {
        self.content_manager.table_content = Some(Box::new(DummyState {}));
    }

    /// Adds a figure behind every figure already in the scene.
    pub fn add_figure(&mut self, figure: Figure)
        requires
            old(self).wf(),
            figure.wf(),
        ensures
            final(self).wf(),
            final(self).figures@ == old(self).figures@.push(figure),
            final(self).figure_group_order@ == old(self).figure_group_order@.push(old(self).figures@.len() as usize),
            final(self).mouse_state == old(self).mouse_state,
            final(self).has_update == old(self).has_update,
            final(self).content_manager == old(self).content_manager,
    {
        let index = self.figures.len();
        self.figures.push(figure);
        self.figure_group_order.push(index);
        proof {
            assert forall|i: int| 0 <= i < self.figures@.len() implies (#[trigger] self.figures@[i]).wf() by {
                if i < index {
                    assert(self.figures@[i] == old(self).figures@[i]);
                }
            }
            assert forall|k: int| 0 <= k < self.figure_group_order@.len() implies (#[trigger] self.figure_group_order@[k]) < self.figures@.len() by {
                if k < old(self).figure_group_order@.len() {
                    assert(self.figure_group_order@[k] == old(self).figure_group_order@[k]);
                }
            }
        }
    }

    /// Commits every figure's pending gesture (see `commits_to`).
    pub fn fix(&mut self)
        requires
            old(self).wf(),
        ensures
            final(self).wf(),
            final(self).figures@.len() == old(self).figures@.len(),
            forall|k: int| 0 <= k < old(self).figures@.len() ==> (#[trigger] old(self).figures@[k]).updates_base_to(final(self).figures@[k]),
            final(self).figure_group_order == old(self).figure_group_order,
            final(self).content_manager == old(self).content_manager,
            final(self).mouse_state == old(self).mouse_state,
            final(self).has_update == old(self).has_update,
    {
        let n = self.figures.len();
        let mut i: usize = 0;
        while i < n
            invariant
                n == self.figures@.len(),
                n == old(self).figures@.len(),
                0 <= i <= n,
                old(self).wf(),
                self.figure_group_order == old(self).figure_group_order,
                self.content_manager == old(self).content_manager,
                self.mouse_state == old(self).mouse_state,
                self.has_update == old(self).has_update,
                forall|k: int| 0 <= k < i ==> (#[trigger] old(self).figures@[k]).updates_base_to(self.figures@[k]) && self.figures@[k].wf(),
                forall|k: int| i <= k < n ==> self.figures@[k] == old(self).figures@[k],
            decreases n - i,
        {
            self.figures[i].update_base();
            i = i + 1;
        }
        proof {
            assert forall|k: int| 0 <= k < self.figures@.len() implies (#[trigger] self.figures@[k]).wf() by {
                assert(old(self).figures@[k].updates_base_to(self.figures@[k]));
            }
        }
    }

    fn release_press(&mut self, x: i64, y: i64, rendered: &Vec<Option<Size>>)
        requires
            old(self).wf(),
            in_coord_range(x as int),
            in_coord_range(y as int),
        ensures
            final(self).wf(),
            old(self).releases_press_to(*final(self), x as int, y as int, rendered@),
    {
        if self.mouse_state.is_button_pushed {
            let n = self.figures.len();
            let mut i: usize = 0;
            while i < n
                invariant
                    n == self.figures@.len(),
                    0 <= i <= n,
                    *self == *old(self),
                    forall|k: int| 0 <= k < i ==> !(#[trigger] self.figures@[k]).is_pushed,
                ensures
                    0 <= i <= n,
                    *self == *old(self),
                    forall|k: int| 0 <= k < i ==> !(#[trigger] self.figures@[k]).is_pushed,
                    i < n ==> self.figures@[i as int].is_pushed,
                decreases n - i,
            {
                if self.figures[i].is_pushed {
                    break;
                }
                i = i + 1;
            }
            if i < n {
                self.figures[i].button_pressed(x, y, rendered);
                proof {
                    assert forall|k: int| 0 <= k < self.figures@.len() implies (#[trigger] self.figures@[k]).wf() by {
                        if k != i {
                            assert(self.figures@[k] == old(self).figures@[k]);
                        }
                    }
                    assert(old(self).figures@[i as int].is_pushed);
                }
            }
            self.mouse_state.is_button_pushed = false;
        }
    }

    /// Ends a gesture at the pointer position `(raw_x, raw_y)`, clamped into
    /// the coordinate space: an armed button fires if still under the
    /// pointer, then every figure commits (see `ups_to`).
    pub fn mouse_up(&mut self, raw_x: i64, raw_y: i64, rendered: &Vec<Option<Size>>)
        requires
            old(self).wf(),
        ensures
            final(self).wf(),
            old(self).ups_to(*final(self), clamp_coord(raw_x as int), clamp_coord(raw_y as int), rendered@),
    {
        let x = clamp_i64(raw_x, -COORD_LIMIT, COORD_LIMIT);
        let y = clamp_i64(raw_y, -COORD_LIMIT, COORD_LIMIT);
        self.release_press(x, y, rendered);
        let ghost mid = *self;
        self.mouse_state.is_dragged = false;
        self.fix();
        self.has_update = true;
        assert(old(self).releases_press_to(mid, x as int, y as int, rendered@) && mid.commits_to(*self));
    }

    fn find_figure(&self, x: i64, y: i64) -> (r: Option<usize>)
        requires
            self.wf(),
            in_coord_range(x as int),
            in_coord_range(y as int),
        ensures
            r matches Some(pos) ==> self.first_hit_is(pos as int, x as int, y as int),
            r is None ==> forall|k: int| 0 <= k < self.figure_group_order@.len()
                ==> !self.figures@[#[trigger] self.figure_group_order@[k] as int].spec_is_inner(x as int, y as int),
    {
        let n = self.figure_group_order.len();
        let mut pos: usize = 0;
        while pos < n
            invariant
                n == self.figure_group_order@.len(),
                0 <= pos <= n,
                self.wf(),
                in_coord_range(x as int),
                in_coord_range(y as int),
                forall|k: int| 0 <= k < pos ==> !self.figures@[#[trigger] self.figure_group_order@[k] as int].spec_is_inner(x as int, y as int),
            decreases n - pos,
        {
            let index = self.figure_group_order[pos];
            if self.figures[index].is_inner(x, y) {
                return Some(pos);
            }
            pos = pos + 1;
        }
        None
    }

    fn bring_to_front(&mut self, pos: usize)
        requires
            old(self).wf(),
            pos < old(self).figure_group_order@.len(),
        ensures
            final(self).wf(),
            final(self).figure_group_order@ == seq![old(self).figure_group_order@[pos as int]] + old(self).figure_group_order@.remove(pos as int),
            final(self).figures == old(self).figures,
            final(self).mouse_state == old(self).mouse_state,
            final(self).has_update == old(self).has_update,
            final(self).content_manager == old(self).content_manager,
    {
        let index = self.figure_group_order.remove(pos);
        self.figure_group_order.insert(0, index);
        proof {
            assert(self.figure_group_order@ =~= seq![index] + old(self).figure_group_order@.remove(pos as int));
            assert forall|k: int| 0 <= k < self.figure_group_order@.len() implies (#[trigger] self.figure_group_order@[k]) < self.figures@.len() by {
                if k > 0 {
                    let r = old(self).figure_group_order@.remove(pos as int);
                    assert(self.figure_group_order@[k] == r[k - 1]);
                    if k - 1 < pos {
                        assert(r[k - 1] == old(self).figure_group_order@[k - 1]);
                    } else {
                        assert(r[k - 1] == old(self).figure_group_order@[k]);
                    }
                }
            }
        }
    }

    fn press_at(&mut self, x: i64, y: i64) -> (r: Option<usize>)
        requires
            old(self).wf(),
            in_coord_range(x as int),
            in_coord_range(y as int),
        ensures
            final(self).wf(),
            old(self).downs_to(*final(self), x as int, y as int, r),
    {
        let result = match self.find_figure(x, y) {
            Some(pos) => {
                let index = self.figure_group_order[pos];
                self.bring_to_front(pos);
                let group_index = self.figures[index].group_index;
                let grabbed = self.figures[index].grab(x, y);
                if grabbed {
                    self.mouse_state.is_dragged = true;
                    self.mouse_state.drag_start_point = Point { x, y };
                }
                if self.figures[index].is_pushed {
                    self.mouse_state.is_button_pushed = true;
                }
                proof {
                    assert(old(self).first_hit_is(pos as int, x as int, y as int));
                    assert forall|k: int| 0 <= k < self.figures@.len() implies (#[trigger] self.figures@[k]).wf() by {
                        if k != index {
                            assert(self.figures@[k] == old(self).figures@[k]);
                        }
                    }
                }
                Some(group_index)
            },
            None => None,
        };
        self.has_update = true;
        result
    }

    /// Starts a gesture at `(raw_x, raw_y)`, clamped into the coordinate
    /// space. A drag still under way is first ended as by `mouse_up`; then
    /// the first figure in hit-testing order under the pointer comes to the
    /// front and resolves the press (see `downs_to`). Returns the group
    /// index of that figure, whose drawing is to be brought to the front.
    pub fn mouse_down(&mut self, raw_x: i64, raw_y: i64, rendered: &Vec<Option<Size>>) -> (r: Option<usize>)
        requires
            old(self).wf(),
        ensures
            final(self).wf(),
            exists|mid: Binder| {
                &&& if old(self).mouse_state.is_dragged {
                    old(self).ups_to(mid, clamp_coord(raw_x as int), clamp_coord(raw_y as int), rendered@)
                } else {
                    mid == *old(self)
                }
                &&& #[trigger] mid.downs_to(*final(self), clamp_coord(raw_x as int), clamp_coord(raw_y as int), r)
            },
    {
        let x = clamp_i64(raw_x, -COORD_LIMIT, COORD_LIMIT);
        let y = clamp_i64(raw_y, -COORD_LIMIT, COORD_LIMIT);
        if self.mouse_state.is_dragged {
            self.mouse_up(raw_x, raw_y, rendered);
        }
        let ghost mid = *self;
        assert(x as int == clamp_coord(raw_x as int) && y as int == clamp_coord(raw_y as int));
        assert(if old(self).mouse_state.is_dragged {
            old(self).ups_to(mid, clamp_coord(raw_x as int), clamp_coord(raw_y as int), rendered@)
        } else {
            mid == *old(self)
        });
        let r = self.press_at(x, y);
        assert(mid.downs_to(*self, x as int, y as int, r));
        r
    }

    /// Applies pointer motion to `(raw_x, raw_y)`, clamped into the
    /// coordinate space (see `moves_to`).
    pub fn mouse_move(&mut self, raw_x: i64, raw_y: i64, rendered: &Vec<Option<Size>>)
        requires
            old(self).wf(),
        ensures
            final(self).wf(),
            old(self).moves_to(*final(self), clamp_coord(raw_x as int), clamp_coord(raw_y as int), rendered@),
    {
        let x = clamp_i64(raw_x, -COORD_LIMIT, COORD_LIMIT);
        let y = clamp_i64(raw_y, -COORD_LIMIT, COORD_LIMIT);
        if !self.mouse_state.is_dragged {
            return;
        }
        let start = self.mouse_state.drag_start_point;
        let delta_point = Point { x: x - start.x, y: y - start.y };
        let n = self.figures.len();
        let mut i: usize = 0;
        while i < n
            invariant
                n == self.figures@.len(),
                n == old(self).figures@.len(),
                0 <= i <= n,
                old(self).wf(),
                start == old(self).mouse_state.drag_start_point,
                start.in_range(),
                in_coord_range(x as int),
                in_coord_range(y as int),
                delta_point == (Point { x: (x - start.x) as i64, y: (y - start.y) as i64 }),
                self.figure_group_order == old(self).figure_group_order,
                self.content_manager == old(self).content_manager,
                self.mouse_state == old(self).mouse_state,
                self.has_update == old(self).has_update,
                forall|k: int| 0 <= k < i ==> (#[trigger] old(self).figures@[k]).moves_to(self.figures@[k], start, delta_point, rendered@)
                    && self.figures@[k].wf(),
                forall|k: int| i <= k < n ==> self.figures@[k] == old(self).figures@[k],
            decreases n - i,
        {
            self.figures[i].move_xy(start, delta_point, rendered);
            i = i + 1;
        }
        self.has_update = true;
        proof {
            assert forall|k: int| 0 <= k < self.figures@.len() implies (#[trigger] self.figures@[k]).wf() by {
                assert(old(self).figures@[k].moves_to(self.figures@[k], start, delta_point, rendered@));
            }
        }
    }

    /// Whether a synchronization pass is due; clears the flag.
    pub fn update(&mut self) -> (r: bool)
        ensures
            r == old(self).has_update,
            !final(self).has_update,
            final(self).figures == old(self).figures,
            final(self).mouse_state == old(self).mouse_state,
            final(self).figure_group_order == old(self).figure_group_order,
            final(self).content_manager == old(self).content_manager,
    {
        if self.has_update {
            self.has_update = false;
            true
        } else {
            false
        }
    }
}

} // verus!
