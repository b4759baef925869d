use vstd::prelude::*;
use crate::base_rect::BaseRect;
use crate::math::{in_coord_range, Amount, Point, Size, COORD_LIMIT};
use crate::base_rect::AxisSpan;
use crate::math::Length;
use crate::part_rect::{Anchor, AnchorKind, ButtonType, MinimizeOption, PartRect, PartType, ShowContentOption};

verus! {

/// Hit-testing slop around a figure's frame, in internal units.
pub const HIT_TOLERANCE: i64 = 2;

/// The last part (in declaration order, so the topmost one) whose rectangle
/// holds `(x, y)`.
pub open spec fn last_inner(parts: Seq<PartRect>, x: int, y: int, base: BaseRect) -> Option<int>
    decreases parts.len(),
{
    if parts.len() == 0 {
        None
    } else if parts.last().spec_is_inner(x, y, base) {
        Some(parts.len() - 1)
    } else {
        last_inner(parts.drop_last(), x, y, base)
    }
}

proof fn lemma_last_inner_bounds(parts: Seq<PartRect>, x: int, y: int, base: BaseRect)
    ensures
        last_inner(parts, x, y, base) matches Some(i) ==> 0 <= i < parts.len() && parts[i].spec_is_inner(x, y, base),
    decreases parts.len(),
{
    if parts.len() > 0 && !parts.last().spec_is_inner(x, y, base) {
        lemma_last_inner_bounds(parts.drop_last(), x, y, base);
        assert forall|i: int| 0 <= i < parts.len() - 1 implies parts.drop_last()[i] == parts[i] by {}
    }
}

/// One movable window: a frame and its parts, with grab and press state.
#[derive(Debug)]
pub struct Figure {
    pub base_rect: BaseRect,
    pub parts: Vec<PartRect>,
    pub is_grabbed: bool,
    pub is_pushed: bool,
    pub group_index: usize,
}

impl Figure {
    pub open spec fn wf(&self) -> bool {
        &&& self.base_rect.wf()
        &&& forall|i: int| 0 <= i < self.parts@.len() ==> (#[trigger] self.parts@[i]).wf()
    }

    /// The frame, widened by the hit tolerance on every side, holds `(x, y)`.
    pub open spec fn spec_is_inner(&self, x: int, y: int) -> bool {
        let b = self.base_rect;
        &&& b.spec_x_value() - HIT_TOLERANCE <= x <= b.spec_x_value() + b.spec_width_value() + HIT_TOLERANCE
        &&& b.spec_y_value() - HIT_TOLERANCE <= y <= b.spec_y_value() + b.spec_height_value() + HIT_TOLERANCE
    }

    /// What `grab(x, y)` does: the last part under the pointer receives the
    /// press and the figure takes its grab and press state; with no part
    /// under the pointer the frame itself is grabbed.
    pub open spec fn grabs_to(self, new: Figure, x: int, y: int) -> bool {
        &&& new.group_index == self.group_index
        &&& new.parts@.len() == self.parts@.len()
        &&& match last_inner(self.parts@, x, y, self.base_rect) {
            Some(i) => {
                &&& new.base_rect == self.base_rect
                &&& self.parts@[i].grabs_to(new.parts@[i], x, y, self.base_rect)
                &&& forall|k: int| 0 <= k < self.parts@.len() && k != i ==> new.parts@[k] == self.parts@[k]
                &&& new.is_grabbed == new.parts@[i].is_grabbed
                &&& new.is_pushed == new.parts@[i].is_pushed
            },
            None => {
                &&& new.base_rect == BaseRect { is_grabbed: true, ..self.base_rect }
                &&& new.parts@ == self.parts@
                &&& new.is_grabbed
                &&& new.is_pushed == self.is_pushed
            },
        }
    }

    /// What `update_base` does: a grabbed figure commits its frame, releases
    /// it and ends the gesture on every part; otherwise nothing changes.
    pub open spec fn updates_base_to(self, new: Figure) -> bool {
        &&& !self.is_grabbed ==> new == self
        &&& self.is_grabbed ==> {
            &&& new.base_rect == BaseRect { is_grabbed: false, ..self.base_rect.committed() }
            &&& !new.is_grabbed
            &&& new.is_pushed == self.is_pushed
            &&& new.group_index == self.group_index
            &&& new.parts@.len() == self.parts@.len()
            &&& forall|k: int| 0 <= k < self.parts@.len() ==> (#[trigger] self.parts@[k]).updates_base_to(new.parts@[k])
        }
    }

    /// Bounding test against the frame with the hit tolerance on all sides.
    pub fn is_inner(&self, x: i64, y: i64) -> (r: bool)
        requires
            self.wf(),
            in_coord_range(x as int),
            in_coord_range(y as int),
        ensures
            r == self.spec_is_inner(x as int, y as int),
    {
        let x_value = self.base_rect.x_value();
        if x_value > x + HIT_TOLERANCE {
            false
        } else if x_value + self.base_rect.width_value() < x - HIT_TOLERANCE {
            false
        } else {
            let y_value = self.base_rect.y_value();
            if y_value > y + HIT_TOLERANCE {
                false
            } else if y_value + self.base_rect.height_value() < y - HIT_TOLERANCE {
                false
            } else {
                true
            }
        }
    }

    fn last_inner_part(&self, x: i64, y: i64) -> (r: Option<usize>)
        requires
            self.wf(),
            in_coord_range(x as int),
            in_coord_range(y as int),
        ensures
            r matches Some(i) ==> last_inner(self.parts@, x as int, y as int, self.base_rect) == Some(i as int)
                && i < self.parts@.len(),
            r is None ==> last_inner(self.parts@, x as int, y as int, self.base_rect) is None,
    {
        let n = self.parts.len();
        let mut found: Option<usize> = None;
        let mut i: usize = 0;
        proof {
            assert(self.parts@.subrange(0, 0).len() == 0);
        }
        while i < n
            invariant
                n == self.parts@.len(),
                0 <= i <= n,
                self.wf(),
                in_coord_range(x as int),
                in_coord_range(y as int),
                found matches Some(j) ==> j < i && last_inner(self.parts@.subrange(0, i as int), x as int, y as int, self.base_rect) == Some(j as int),
                found is None ==> last_inner(self.parts@.subrange(0, i as int), x as int, y as int, self.base_rect) is None,
            decreases n - i,
        {
            proof {
                let pre = self.parts@.subrange(0, i + 1);
                assert(pre.drop_last() =~= self.parts@.subrange(0, i as int));
                assert(pre.last() == self.parts@[i as int]);
            }
            if self.parts[i].is_inner(x, y, &self.base_rect) {
                found = Some(i);
            }
            i = i + 1;
        }
        proof {
            assert(self.parts@.subrange(0, n as int) =~= self.parts@);
        }
        found
    }

    /// Resolves a press at `(x, y)` (see `grabs_to`) and returns whether the
    /// figure is now grabbed.
    pub fn grab(&mut self, x: i64, y: i64) -> (r: bool)
        requires
            old(self).wf(),
            in_coord_range(x as int),
            in_coord_range(y as int),
        ensures
            final(self).wf(),
            r == final(self).is_grabbed,
            old(self).grabs_to(*final(self), x as int, y as int),
    {
        match self.last_inner_part(x, y) {
            Some(i) => {
                let grabbed = self.parts[i].grab(x, y, &self.base_rect);
                self.is_grabbed = grabbed;
                self.is_pushed = self.parts[i].is_pushed;
            },
            None => {
                self.base_rect.is_grabbed = true;
                self.is_grabbed = true;
            },
        }
        self.is_grabbed
    }

    /// Ends a gesture (see `updates_base_to`).
    pub fn update_base(&mut self)
        requires
            old(self).wf(),
        ensures
            final(self).wf(),
            old(self).updates_base_to(*final(self)),
    {
        if !self.is_grabbed {
            return;
        }
        self.base_rect.update_base();
        self.base_rect.is_grabbed = false;
        self.is_grabbed = false;
        let n = self.parts.len();
        let mut i: usize = 0;
        while i < n
            invariant
                n == self.parts@.len(),
                n == old(self).parts@.len(),
                0 <= i <= n,
                old(self).wf(),
                self.base_rect.wf(),
                old(self).is_grabbed,
                self.base_rect == (BaseRect { is_grabbed: false, ..old(self).base_rect.committed() }),
                !self.is_grabbed,
                self.is_pushed == old(self).is_pushed,
                self.group_index == old(self).group_index,
                forall|k: int| 0 <= k < i ==> (#[trigger] old(self).parts@[k]).updates_base_to(self.parts@[k]) && self.parts@[k].wf(),
                forall|k: int| i <= k < n ==> self.parts@[k] == old(self).parts@[k],
            decreases n - i,
        {
            self.parts[i].update_base();
            i = i + 1;
        }
        proof {
            assert forall|k: int| 0 <= k < self.parts@.len() implies (#[trigger] self.parts@[k]).wf() by {
                assert(old(self).parts@[k].updates_base_to(self.parts@[k]));
            }
        }
    }
}

impl Figure {
    /// The first grabbed part is `i`.
    pub open spec fn first_grabbed_is(self, i: int) -> bool {
        &&& 0 <= i < self.parts@.len()
        &&& self.parts@[i].is_grabbed
        &&& forall|k: int| 0 <= k < i ==> !(#[trigger] self.parts@[k]).is_grabbed
    }

    /// Routing of a move event on a grabbed figure: a grabbed Drag part drags
    /// the whole frame, a grabbed Scrollable part drags its grabbed scrollbar,
    /// other grabbed parts ignore the motion, and with no part grabbed the
    /// frame is resized from the edge nearer to the gesture's start.
    pub open spec fn routes_to(self, new: Figure, start: Point, delta: Point) -> bool {
        &&& new == Figure { base_rect: new.base_rect, parts: new.parts, ..self }
        &&& new.parts@.len() == self.parts@.len()
        &&& {
            ||| (forall|k: int| 0 <= k < self.parts@.len() ==> !(#[trigger] self.parts@[k]).is_grabbed)
                && new.base_rect == self.base_rect.moved(start, delta, false)
                && new.parts@ == self.parts@
            ||| exists|i: int| #[trigger] self.first_grabbed_is(i) && {
                if self.parts@[i].part_type is Drag {
                    new.base_rect == self.base_rect.moved(start, delta, true) && new.parts@ == self.parts@
                } else if self.parts@[i].part_type is Scrollable {
                    &&& new.base_rect == self.base_rect
                    &&& self.parts@[i].drags_bar_to(new.parts@[i], delta, self.base_rect)
                    &&& forall|k: int| 0 <= k < self.parts@.len() && k != i ==> new.parts@[k] == self.parts@[k]
                } else {
                    new.base_rect == self.base_rect && new.parts@ == self.parts@
                }
            }
        }
    }

    /// Every scrollable part's scrollbars recomputed against the frame.
    pub open spec fn refreshes_to(self, new: Figure, rendered: Seq<Option<Size>>) -> bool {
        &&& new == Figure { parts: new.parts, ..self }
        &&& new.parts@.len() == self.parts@.len()
        &&& forall|k: int| 0 <= k < self.parts@.len() ==> (#[trigger] self.parts@[k]).refreshes_to(new.parts@[k], self.base_rect, rendered)
    }

    /// A pressed button stays armed only while the pointer at `(x, y)` stays on it.
    pub open spec fn keeps_press_to(self, new: Figure, x: int, y: int) -> bool {
        ||| (forall|k: int| 0 <= k < self.parts@.len() ==> !(#[trigger] self.parts@[k]).is_pushed)
            && new == Figure { is_pushed: false, ..self }
        ||| exists|i: int| {
            &&& 0 <= i < self.parts@.len()
            &&& #[trigger] self.parts@[i].is_pushed
            &&& forall|k: int| 0 <= k < i ==> !(#[trigger] self.parts@[k]).is_pushed
            &&& if self.parts@[i].spec_is_inner(x, y, self.base_rect) {
                new == self
            } else {
                &&& new == Figure { parts: new.parts, is_pushed: false, ..self }
                &&& new.parts@ == self.parts@.update(i, PartRect { is_pushed: false, ..self.parts@[i] })
            }
        }
    }

    /// What `move_xy` does for a gesture that started at `start` and has
    /// moved by `delta`: a grabbed figure routes the motion and then
    /// recomputes its scrollbars; a figure with an armed button checks that
    /// the pointer is still on it; any other figure is left alone.
    pub open spec fn moves_to(self, new: Figure, start: Point, delta: Point, rendered: Seq<Option<Size>>) -> bool {
        if self.is_grabbed {
            exists|mid: Figure| self.routes_to(mid, start, delta) && mid.refreshes_to(new, rendered)
        } else if self.is_pushed {
            self.keeps_press_to(new, start.x + delta.x, start.y + delta.y)
        } else {
            new == self
        }
    }

    fn first_grabbed_part(&self) -> (r: Option<usize>)
        ensures
            r matches Some(i) ==> self.first_grabbed_is(i as int),
            r is None ==> forall|k: int| 0 <= k < self.parts@.len() ==> !(#[trigger] self.parts@[k]).is_grabbed,
    {
        let n = self.parts.len();
        let mut i: usize = 0;
        while i < n
            invariant
                n == self.parts@.len(),
                0 <= i <= n,
                forall|k: int| 0 <= k < i ==> !(#[trigger] self.parts@[k]).is_grabbed,
            decreases n - i,
        {
            if self.parts[i].is_grabbed {
                return Some(i);
            }
            i = i + 1;
        }
        None
    }

    fn first_pushed_part(&self) -> (r: Option<usize>)
        ensures
            r matches Some(i) ==> {
                &&& i < self.parts@.len()
                &&& self.parts@[i as int].is_pushed
                &&& forall|k: int| 0 <= k < i ==> !(#[trigger] self.parts@[k]).is_pushed
            },
            r is None ==> forall|k: int| 0 <= k < self.parts@.len() ==> !(#[trigger] self.parts@[k]).is_pushed,
    {
        let n = self.parts.len();
        let mut i: usize = 0;
        while i < n
            invariant
                n == self.parts@.len(),
                0 <= i <= n,
                forall|k: int| 0 <= k < i ==> !(#[trigger] self.parts@[k]).is_pushed,
            decreases n - i,
        {
            if self.parts[i].is_pushed {
                return Some(i);
            }
            i = i + 1;
        }
        None
    }

    fn route_motion(&mut self, start_point: Point, delta_point: Point)
        requires
            old(self).wf(),
            start_point.in_range(),
            -2 * COORD_LIMIT <= delta_point.x <= 2 * COORD_LIMIT,
            -2 * COORD_LIMIT <= delta_point.y <= 2 * COORD_LIMIT,
        ensures
            final(self).wf(),
            old(self).routes_to(*final(self), start_point, delta_point),
    {
        match self.first_grabbed_part() {
            Some(i) => {
                let is_drag = match self.parts[i].part_type {
                    PartType::Drag => true,
                    _ => false,
                };
                let is_scrollable = match self.parts[i].part_type {
                    PartType::Scrollable => true,
                    _ => false,
                };
                if is_drag {
                    self.base_rect.move_xy(start_point, delta_point, true);
                    proof {
                        assert(self.parts@ == old(self).parts@);
                        assert(old(self).first_grabbed_is(i as int));
                    }
                } else if is_scrollable {
                    self.parts[i].drag_grabbed_bar(delta_point, &self.base_rect);
                    proof {
                        assert(old(self).first_grabbed_is(i as int));
                        assert forall|k: int| 0 <= k < self.parts@.len() implies (#[trigger] self.parts@[k]).wf() by {
                            if k != i {
                                assert(self.parts@[k] == old(self).parts@[k]);
                            }
                        }
                    }
                } else {
                    proof {
                        assert(old(self).first_grabbed_is(i as int));
                    }
                }
            },
            None => {
                self.base_rect.move_xy(start_point, delta_point, false);
            },
        }
    }

    fn refresh_scroll_bars(&mut self, rendered: &Vec<Option<Size>>)
        requires
            old(self).wf(),
        ensures
            final(self).wf(),
            old(self).refreshes_to(*final(self), rendered@),
    {
        let n = self.parts.len();
        let mut i: usize = 0;
        while i < n
            invariant
                n == self.parts@.len(),
                n == old(self).parts@.len(),
                0 <= i <= n,
                old(self).wf(),
                *self == (Figure { parts: self.parts, ..*old(self) }),
                forall|k: int| 0 <= k < i ==> (#[trigger] old(self).parts@[k]).refreshes_to(self.parts@[k], old(self).base_rect, rendered@)
                    && self.parts@[k].wf(),
                forall|k: int| i <= k < n ==> self.parts@[k] == old(self).parts@[k],
            decreases n - i,
        {
            self.parts[i].refresh_scroll_bars(&self.base_rect, rendered);
            i = i + 1;
        }
        proof {
            assert forall|k: int| 0 <= k < self.parts@.len() implies (#[trigger] self.parts@[k]).wf() by {
                assert(old(self).parts@[k].refreshes_to(self.parts@[k], old(self).base_rect, rendered@));
            }
        }
    }

    /// Applies one move event (see `moves_to`). `rendered` holds, by element
    /// index, the measured size of content drawn next to each element.
    pub fn move_xy(&mut self, drag_start_point: Point, delta_point: Point, rendered: &Vec<Option<Size>>)
        requires
            old(self).wf(),
            drag_start_point.in_range(),
            in_coord_range(drag_start_point.x + delta_point.x),
            in_coord_range(drag_start_point.y + delta_point.y),
        ensures
            final(self).wf(),
            old(self).moves_to(*final(self), drag_start_point, delta_point, rendered@),
    {
        if self.is_grabbed {
            self.route_motion(drag_start_point, delta_point);
            let ghost mid = *self;
            self.refresh_scroll_bars(rendered);
            assert(old(self).routes_to(mid, drag_start_point, delta_point) && mid.refreshes_to(*self, rendered@));
        } else if self.is_pushed {
            let x = drag_start_point.x + delta_point.x;
            let y = drag_start_point.y + delta_point.y;
            match self.first_pushed_part() {
                Some(i) => {
                    if !self.parts[i].is_inner(x, y, &self.base_rect) {
                        self.is_pushed = false;
                        self.parts[i].is_pushed = false;
                        proof {
                            assert(self.parts@ =~= old(self).parts@.update(i as int, PartRect { is_pushed: false, ..old(self).parts@[i as int] }));
                            assert forall|k: int| 0 <= k < self.parts@.len() implies (#[trigger] self.parts@[k]).wf() by {
                                if k != i {
                                    assert(self.parts@[k] == old(self).parts@[k]);
                                } else {
                                    assert(old(self).parts@[k].wf());
                                }
                            }
                        }
                    }
                    proof {
                        assert(old(self).parts@[i as int].is_pushed);
                    }
                },
                None => {
                    self.is_pushed = false;
                },
            }
        }
    }
}

/// Room added around the measured content when a figure grows to show it.
pub const SHOW_CONTENT_PADDING_X: i64 = 28;
pub const SHOW_CONTENT_PADDING_Y: i64 = 50;

impl Figure {
    /// `new` is this figure at rest with its frame resized to `width` by `height`.
    pub open spec fn resized_to(self, new: Figure, width: int, height: int) -> bool {
        new == Figure {
            base_rect: BaseRect { x: self.base_rect.x.with_length(width), y: self.base_rect.y.with_length(height), ..self.base_rect },
            ..self
        }
    }

    /// Part `i` is the first Scrollable part whose content has a measured size.
    pub open spec fn first_shown_content_is(self, i: int, rendered: Seq<Option<Size>>) -> bool {
        &&& 0 <= i < self.parts@.len()
        &&& self.parts@[i].part_type is Scrollable
        &&& self.parts@[i].spec_internal_content_size(rendered) is Some
        &&& forall|k: int| 0 <= k < i ==> !((#[trigger] self.parts@[k]).part_type is Scrollable
            && self.parts@[k].spec_internal_content_size(rendered) is Some)
    }

    /// What showing the content does: the frame grows to the measured size of
    /// the first Scrollable part's content plus padding; with nothing
    /// measured the figure is unchanged.
    pub open spec fn shows_content_to(self, new: Figure, rendered: Seq<Option<Size>>) -> bool {
        ||| (forall|k: int| 0 <= k < self.parts@.len() ==> !((#[trigger] self.parts@[k]).part_type is Scrollable
            && self.parts@[k].spec_internal_content_size(rendered) is Some)) && new == self
        ||| exists|i: int| #[trigger] self.first_shown_content_is(i, rendered) && {
            let size = self.parts@[i].spec_internal_content_size(rendered)->Some_0.0;
            self.resized_to(new, size.width + SHOW_CONTENT_PADDING_X, size.height + SHOW_CONTENT_PADDING_Y)
        }
    }

    /// What releasing the pointer at `(x, y)` does to a figure's armed
    /// button: the press is disarmed, and when the pointer is still on the
    /// button its action runs.
    pub open spec fn presses_to(self, new: Figure, x: int, y: int, rendered: Seq<Option<Size>>) -> bool {
        ||| (forall|k: int| 0 <= k < self.parts@.len() ==> !(#[trigger] self.parts@[k]).is_pushed)
            && new == Figure { is_pushed: false, ..self }
        ||| exists|i: int, mid: Figure| #[trigger] self.fires_press(i, mid, new, x, y, rendered)
    }

    /// Part `i` is the first armed button, `mid` is the figure with it
    /// disarmed, and `new` follows from `mid` by the button's action when the
    /// pointer at `(x, y)` is still on the button.
    pub open spec fn fires_press(self, i: int, mid: Figure, new: Figure, x: int, y: int, rendered: Seq<Option<Size>>) -> bool {
        &&& 0 <= i < self.parts@.len()
        &&& self.parts@[i].is_pushed
        &&& forall|k: int| 0 <= k < i ==> !(#[trigger] self.parts@[k]).is_pushed
        &&& mid == Figure { parts: mid.parts, is_pushed: false, ..self }
        &&& mid.parts@ == self.parts@.update(i, PartRect { is_pushed: false, ..self.parts@[i] })
        &&& if !self.parts@[i].spec_is_inner(x, y, self.base_rect) {
            new == mid
        } else {
            match self.parts@[i].part_type {
                PartType::Button(ButtonType::Minimize(o)) => mid.resized_to(new, o.minimized_width as int, o.minimized_height as int),
                PartType::Button(ButtonType::ShowContent(_)) => mid.shows_content_to(new, rendered),
                _ => new == mid,
            }
        }
    }

    /// Fires the armed button if the pointer is released over it (see `presses_to`).
    pub fn button_pressed(&mut self, x: i64, y: i64, rendered: &Vec<Option<Size>>)
        requires
            old(self).wf(),
            in_coord_range(x as int),
            in_coord_range(y as int),
        ensures
            final(self).wf(),
            old(self).presses_to(*final(self), x as int, y as int, rendered@),
    {
        self.is_pushed = false;
        match self.first_pushed_part() {
            None => {},
            Some(i) => {
                self.parts[i].is_pushed = false;
                let ghost mid = *self;
                proof {
                    assert(mid.parts@ =~= old(self).parts@.update(i as int, PartRect { is_pushed: false, ..old(self).parts@[i as int] }));
                    assert(old(self).parts@[i as int].is_pushed);
                    assert forall|k: int| 0 <= k < self.parts@.len() implies (#[trigger] self.parts@[k]).wf() by {
                        if k != i {
                            assert(self.parts@[k] == old(self).parts@[k]);
                        } else {
                            assert(old(self).parts@[k].wf());
                        }
                    }
                }
                if self.parts[i].is_inner(x, y, &self.base_rect) {
                    let button = match &self.parts[i].part_type {
                        PartType::Button(button_type) => Some(*button_type),
                        _ => None,
                    };
                    match button {
                        Some(ButtonType::Minimize(minimize_option)) => {
                            minimize_option.minimize_window(self);
                        },
                        Some(ButtonType::ShowContent(show_content_option)) => {
                            show_content_option.adjust_to_show_content(self, rendered);
                        },
                        None => {},
                    }
                }
                assert(old(self).fires_press(i as int, mid, *self, x as int, y as int, rendered@));
            },
        }
    }
}

impl MinimizeOption {
    /// Sets the figure's frame to the minimized width and height.
    pub fn minimize_window(&self, figure: &mut Figure)
        requires
            old(figure).wf(),
        ensures
            final(figure).wf(),
            old(figure).resized_to(*final(figure), self.minimized_width as int, self.minimized_height as int),
    {
        figure.base_rect.y.set_length(self.minimized_height);
        figure.base_rect.x.set_length(self.minimized_width);
    }
}

impl ShowContentOption {
    /// Grows the figure's frame to fit its measured content (see `shows_content_to`).
    pub fn adjust_to_show_content(&self, figure: &mut Figure, rendered: &Vec<Option<Size>>)
        requires
            old(figure).wf(),
        ensures
            final(figure).wf(),
            old(figure).shows_content_to(*final(figure), rendered@),
    {
        let n = figure.parts.len();
        let mut i: usize = 0;
        while i < n
            invariant
                n == figure.parts@.len(),
                0 <= i <= n,
                *figure == *old(figure),
                old(figure).wf(),
                forall|k: int| 0 <= k < i ==> !((#[trigger] figure.parts@[k]).part_type is Scrollable
                    && figure.parts@[k].spec_internal_content_size(rendered@) is Some),
            decreases n - i,
        {
            let is_scrollable = match figure.parts[i].part_type {
                PartType::Scrollable => true,
                _ => false,
            };
            if is_scrollable {
                if let Some((size, _)) = figure.parts[i].get_internal_content_size(rendered) {
                    proof {
                        assert(old(figure).first_shown_content_is(i as int, rendered@));
                    }
                    figure.base_rect.x.set_length(size.width + SHOW_CONTENT_PADDING_X);
                    figure.base_rect.y.set_length(size.height + SHOW_CONTENT_PADDING_Y);
                    return;
                }
            }
            i = i + 1;
        }
    }
}

/// Element handles a window's regions are drawn with, in creation order.
#[derive(Clone, Copy, Debug, PartialEq, Eq, Structural)]
pub struct WindowHandles {
    pub group_index: usize,
    pub base: usize,
    pub scroll_area: usize,
    pub content: usize,
    pub scroll_bar_x: usize,
    pub scroll_bar_y: usize,
    pub title_background: usize,
    pub minimize_button: usize,
    pub show_content_button: usize,
}

/// Thickness of the scrollbars of a default window.
pub const DEFAULT_BAR_THICKNESS: i64 = 10;

/// Side of the buttons of a default window.
pub const DEFAULT_BUTTON_SIZE: i64 = 20;

impl Figure {
    /// A window at `(start_x, start_y)`: a frame of the given lengths holding a
    /// scrollable area under a title bar of `title_height`, a title bar, a
    /// minimize button and a show-content button, in that order.
    pub fn default_window(
        start_x: i64,
        start_y: i64,
        width: Length,
        height: Length,
        title: String,
        frame_color: String,
        margin: i64,
        title_height: i64,
        content_part_type: PartType,
        handles: WindowHandles,
    ) -> (r: Figure)
        requires
            0 <= width.min,
            0 <= height.min,
            width.amount.fits(),
            height.amount.fits(),
            0 <= start_x,
            0 <= start_y,
            start_x + width.spec_value() <= COORD_LIMIT,
            start_y + height.spec_value() <= COORD_LIMIT,
            in_coord_range(margin as int),
            in_coord_range(-margin),
            in_coord_range(margin + title_height),
            in_coord_range(margin + DEFAULT_BUTTON_SIZE),
            in_coord_range(-margin - DEFAULT_BAR_THICKNESS),
            in_coord_range(-2 * margin - 2 * DEFAULT_BUTTON_SIZE),
            in_coord_range(-2 * margin - DEFAULT_BUTTON_SIZE),
            !content_part_type.is_scroll_bar(),
        ensures
            r.wf(),
            r.base_rect.x == AxisSpan::new_spec(start_x, width),
            r.base_rect.y == AxisSpan::new_spec(start_y, height),
            r.base_rect.color == frame_color,
            r.base_rect.element_index == handles.base,
            !r.base_rect.is_grabbed,
            !r.is_grabbed,
            !r.is_pushed,
            r.group_index == handles.group_index,
            r.parts@.len() == 4,
            r.parts@[0].part_type is Scrollable,
            r.parts@[0].internal_part_rect@.len() == 3,
            r.parts@[0].internal_part_rect@[0].part_type == content_part_type,
            r.parts@[1].part_type == PartType::Title(title),
            r.parts@[2].part_type == PartType::Button(ButtonType::Minimize(
                MinimizeOption { minimized_width: width.min, minimized_height: height.min })),
            r.parts@[3].part_type == PartType::Button(ButtonType::ShowContent(ShowContentOption {})),
    {
        let offset_x: i64 = 0;
        let offset_y = title_height;
        let scroll_bar_thickness = DEFAULT_BAR_THICKNESS;
        let button_size = DEFAULT_BUTTON_SIZE;
        let min_width = width.min;
        let min_height = height.min;
        let base_rect = BaseRect::new(
            AxisSpan::new(start_x, width),
            AxisSpan::new(start_y, height),
            frame_color,
            handles.base,
        );
        let mut parts: Vec<PartRect> = Vec::new();
        parts.push(PartRect::default_scrollable(
            margin,
            offset_x,
            offset_y,
            scroll_bar_thickness,
            String::from_str("white"),
            content_part_type,
            handles.scroll_area,
            handles.content,
            handles.scroll_bar_x,
            handles.scroll_bar_y,
        ));
        parts.push(PartRect::default_title_bg(title, margin, offset_y, String::new(), handles.title_background));
        parts.push(PartRect::default_button(
            Anchor::new(-margin - button_size - margin - button_size, AnchorKind::End),
            Anchor::new(margin, AnchorKind::Start),
            button_size,
            String::from_str("white"),
            handles.minimize_button,
            ButtonType::Minimize(MinimizeOption { minimized_width: min_width, minimized_height: min_height }),
        ));
        parts.push(PartRect::default_button(
            Anchor::new(-margin - button_size, AnchorKind::End),
            Anchor::new(margin, AnchorKind::Start),
            button_size,
            String::from_str("white"),
            handles.show_content_button,
            ButtonType::ShowContent(ShowContentOption {}),
        ));
        let figure = Figure { base_rect, parts, is_grabbed: false, is_pushed: false, group_index: handles.group_index };
        proof {
            assert forall|k: int| 0 <= k < figure.parts@.len() implies (#[trigger] figure.parts@[k]).wf() by {}
        }
        figure
    }

    /// A status window at `(x, y)`: 200 by 300 units, at least 150 by 30,
    /// showing the table keyed by `table_content_token`.
    pub fn new_window_dev(
        title: String,
        x: i64,
        y: i64,
        frame_color: String,
        table_content_token: String,
        handles: WindowHandles,
    ) -> (r: Figure)
        requires
            0 <= x <= COORD_LIMIT - 1000,
            0 <= y <= COORD_LIMIT - 1000,
        ensures
            r.wf(),
            r.base_rect.x == AxisSpan::new_spec(x, Length { min: 150, amount: Amount::new_spec(200), is_fixed: false }),
            r.base_rect.y == AxisSpan::new_spec(y, Length { min: 30, amount: Amount::new_spec(300), is_fixed: false }),
            r.group_index == handles.group_index,
            r.parts@.len() == 4,
            r.parts@[0].internal_part_rect@.len() == 3,
            r.parts@[0].internal_part_rect@[0].part_type == PartType::TableContent(table_content_token),
    {
        Figure::default_window(
            x,
            y,
            Length::new_with_min(200, 150),
            Length::new_with_min(300, 30),
            title,
            frame_color,
            5,
            25,
            PartType::TableContent(table_content_token),
            handles,
        )
    }

    /// A log window at `(x, y)`: 1000 by 90 units, at least 150 by 30,
    /// showing the table keyed by `table_content_token`.
    pub fn new_log_window_dev(
        title: String,
        x: i64,
        y: i64,
        frame_color: String,
        table_content_token: String,
        handles: WindowHandles,
    ) -> (r: Figure)
        requires
            0 <= x <= COORD_LIMIT - 1000,
            0 <= y <= COORD_LIMIT - 1000,
        ensures
            r.wf(),
            r.base_rect.x == AxisSpan::new_spec(x, Length { min: 150, amount: Amount::new_spec(1000), is_fixed: false }),
            r.base_rect.y == AxisSpan::new_spec(y, Length { min: 30, amount: Amount::new_spec(90), is_fixed: false }),
            r.group_index == handles.group_index,
            r.parts@.len() == 4,
            r.parts@[0].internal_part_rect@.len() == 3,
            r.parts@[0].internal_part_rect@[0].part_type == PartType::TableContent(table_content_token),
    {
        Figure::default_window(
            x,
            y,
            Length::new_with_min(1000, 150),
            Length::new_with_min(90, 30),
            title,
            frame_color,
            5,
            25,
            PartType::TableContent(table_content_token),
            handles,
        )
    }
}

/// Overlapping parts resolve to the one declared last: when the parts at
/// `i < j` both hold the point, the press goes to `j` or a later part, never `i`.
pub proof fn lemma_grab_prefers_later_part(parts: Seq<PartRect>, x: int, y: int, base: BaseRect, i: int, j: int)
    requires
        0 <= i < j < parts.len(),
        parts[i].spec_is_inner(x, y, base),
        parts[j].spec_is_inner(x, y, base),
    ensures
        last_inner(parts, x, y, base) matches Some(k) && j <= k < parts.len(),
    decreases parts.len(),
{
    lemma_last_inner_bounds(parts, x, y, base);
    if !parts.last().spec_is_inner(x, y, base) {
        assert(j < parts.len() - 1);
        let rest = parts.drop_last();
        assert(rest[i] == parts[i]);
        assert(rest[j] == parts[j]);
        lemma_grab_prefers_later_part(rest, x, y, base, i, j);
    }
}

} // verus!
