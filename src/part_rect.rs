use vstd::prelude::*;
use crate::base_rect::BaseRect;
use crate::math::{in_coord_range, max_int, measured_at, rendered_size, Point, Size, COORD_LIMIT};
use crate::scroll_bar::in_extent_range;
use crate::scroll_bar::ScrollBarState;

verus! {

/// How an offset attaches to the frame: to its near edge (`Start`,
/// `ContentBase`), to its far edge (`End`), or not at all (`Ignore`, a derived
/// dimension that resolves to 0).
#[derive(Clone, Copy, Debug, PartialEq, Eq, Structural)]
pub enum AnchorKind {
    Start,
    End,
    ContentBase,
    Ignore,
}

/// An offset together with the frame edge it is measured from.
#[derive(Clone, Copy, Debug, PartialEq, Eq, Structural)]
pub struct Anchor {
    pub offset: i64,
    pub kind: AnchorKind,
}

impl Anchor {
    pub fn new(offset: i64, kind: AnchorKind) -> (r: Anchor)
        ensures
            r.offset == offset,
            r.kind == kind,
    {
        Anchor { offset, kind }
    }
}

/// Resolves an anchor against a frame edge pair given by its near position and length.
pub open spec fn resolve(a: Anchor, near: int, length: int) -> int {
    match a.kind {
        AnchorKind::Start | AnchorKind::ContentBase => near + a.offset,
        AnchorKind::End => near + length + a.offset,
        AnchorKind::Ignore => 0,
    }
}

/// Sizes a minimize button shrinks its figure to.
#[derive(Clone, Copy, Debug, PartialEq, Eq, Structural)]
pub struct MinimizeOption {
    pub minimized_width: i64,
    pub minimized_height: i64,
}

/// Marker for a button that grows its figure to show the whole content.
#[derive(Clone, Copy, Debug, PartialEq, Eq, Structural)]
pub struct ShowContentOption {}

/// What a button does when it is released over itself.
#[derive(Clone, Copy, Debug, PartialEq, Eq, Structural)]
pub enum ButtonType {
    /// Shrinks the figure to the given sizes.
    Minimize(MinimizeOption),
    /// Grows the figure to show its whole content.
    ShowContent(ShowContentOption),
}

/// The kind of a part, with the state that kind carries.
#[derive(Debug)]
pub enum PartType {
    Ignore,
    Button(ButtonType),
    Expand,
    Drag,
    /// A title bar, with its text.
    Title(String),
    Scrollable,
    ScrollBarX(ScrollBarState),
    ScrollBarY(ScrollBarState),
    /// Table content, with the key its rows are looked up by.
    TableContent(String),
    ClipPath,
}

impl PartType {
    pub open spec fn is_scroll_bar(&self) -> bool {
        self is ScrollBarX || self is ScrollBarY
    }
}

/// A rectangle anchored to its frame, possibly holding one level of inner parts.
#[derive(Debug)]
pub struct PartRect {
    pub x_start: Anchor,
    pub x_end: Anchor,
    pub y_start: Anchor,
    pub y_end: Anchor,
    pub color: String,
    pub element_index: usize,
    pub part_type: PartType,
    pub is_grabbed: bool,
    pub is_pushed: bool,
    pub internal_part_rect: Vec<PartRect>,
    pub is_initialized: bool,
    pub has_content: bool,
}

impl PartRect {
    /// Offsets are coordinates and a scrollbar's state is well formed.
    pub open spec fn wf_shallow(&self) -> bool {
        &&& in_coord_range(self.x_start.offset as int)
        &&& in_coord_range(self.x_end.offset as int)
        &&& in_coord_range(self.y_start.offset as int)
        &&& in_coord_range(self.y_end.offset as int)
        &&& match self.part_type {
            PartType::ScrollBarX(s) => s.wf(),
            PartType::ScrollBarY(s) => s.wf(),
            _ => true,
        }
    }

    /// The part and each of its inner parts are well formed.
    pub open spec fn wf(&self) -> bool {
        &&& self.wf_shallow()
        &&& forall|i: int| 0 <= i < self.internal_part_rect@.len() ==> (#[trigger] self.internal_part_rect@[i]).wf_shallow()
    }

    pub open spec fn spec_x_value(&self, base: BaseRect) -> int {
        resolve(self.x_start, base.spec_x_value(), base.spec_width_value()) + match self.part_type {
            PartType::ScrollBarX(s) => s.start_amount.spec_value(),
            _ => 0,
        }
    }

    pub open spec fn spec_y_value(&self, base: BaseRect) -> int {
        resolve(self.y_start, base.spec_y_value(), base.spec_height_value()) + match self.part_type {
            PartType::ScrollBarY(s) => s.start_amount.spec_value(),
            _ => 0,
        }
    }

    pub open spec fn spec_width_value(&self, base: BaseRect) -> int {
        match self.part_type {
            PartType::ScrollBarX(s) => s.length as int,
            _ => if self.x_end.kind == AnchorKind::Ignore {
                0
            } else {
                resolve(self.x_end, base.spec_x_value(), base.spec_width_value()) - self.spec_x_value(base)
            },
        }
    }

    pub open spec fn spec_height_value(&self, base: BaseRect) -> int {
        match self.part_type {
            PartType::ScrollBarY(s) => s.length as int,
            _ => if self.y_end.kind == AnchorKind::Ignore {
                0
            } else {
                resolve(self.y_end, base.spec_y_value(), base.spec_height_value()) - self.spec_y_value(base)
            },
        }
    }

    /// Closed rectangle test: both bounds of both axes count as inside.
    pub open spec fn spec_is_inner(&self, x: int, y: int, base: BaseRect) -> bool {
        &&& self.spec_x_value(base) <= x <= self.spec_x_value(base) + self.spec_width_value(base)
        &&& self.spec_y_value(base) <= y <= self.spec_y_value(base) + self.spec_height_value(base)
    }

    /// An inner part that a pointer at `(x, y)` grabs inside a scrollable part.
    pub open spec fn is_bar_hit(&self, x: int, y: int, base: BaseRect) -> bool {
        self.part_type.is_scroll_bar() && self.spec_is_inner(x, y, base)
    }

    /// Whether a part of this kind takes the grab itself.
    pub open spec fn grabs_directly(&self) -> bool {
        self.part_type is Expand || self.part_type is Drag || self.part_type is Title
    }

    /// The inner part after the end of a gesture: released, with a
    /// scrollbar's offset committed.
    pub open spec fn released(self) -> PartRect {
        PartRect {
            is_grabbed: false,
            part_type: match self.part_type {
                PartType::ScrollBarX(s) => PartType::ScrollBarX(ScrollBarState { start_amount: s.start_amount.committed(), ..s }),
                PartType::ScrollBarY(s) => PartType::ScrollBarY(ScrollBarState { start_amount: s.start_amount.committed(), ..s }),
                _ => self.part_type,
            },
            ..self
        }
    }
}

fn resolve_anchor(a: Anchor, near: i64, length: i64) -> (r: i64)
    requires
        in_coord_range(a.offset as int),
        0 <= near <= COORD_LIMIT,
        0 <= length <= COORD_LIMIT,
    ensures
        r == resolve(a, near as int, length as int),
        -COORD_LIMIT <= r <= 3 * COORD_LIMIT,
{
    match a.kind {
        AnchorKind::Start | AnchorKind::ContentBase => near + a.offset,
        AnchorKind::End => near + length + a.offset,
        AnchorKind::Ignore => 0,
    }
}

impl PartRect {
    /// Left edge, resolved live against the frame; a horizontal scrollbar
    /// adds its thumb offset.
    pub fn x_value(&self, base_rect: &BaseRect) -> (r: i64)
        requires
            self.wf_shallow(),
            base_rect.wf(),
        ensures
            r == self.spec_x_value(*base_rect),
            -COORD_LIMIT <= r <= 7 * COORD_LIMIT,
    {
        let amount = resolve_anchor(self.x_start, base_rect.x_value(), base_rect.width_value());
        match &self.part_type {
            PartType::ScrollBarX(scroll_bar_state) => amount + scroll_bar_state.start_amount.value(),
            _ => amount,
        }
    }

    /// Top edge, resolved live against the frame; a vertical scrollbar adds
    /// its thumb offset.
    pub fn y_value(&self, base_rect: &BaseRect) -> (r: i64)
        requires
            self.wf_shallow(),
            base_rect.wf(),
        ensures
            r == self.spec_y_value(*base_rect),
            -COORD_LIMIT <= r <= 7 * COORD_LIMIT,
    {
        let amount = resolve_anchor(self.y_start, base_rect.y_value(), base_rect.height_value());
        match &self.part_type {
            PartType::ScrollBarY(scroll_bar_state) => amount + scroll_bar_state.start_amount.value(),
            _ => amount,
        }
    }

    /// Width; a horizontal scrollbar's width is its thumb length.
    pub fn width_value(&self, base_rect: &BaseRect) -> (r: i64)
        requires
            self.wf_shallow(),
            base_rect.wf(),
        ensures
            r == self.spec_width_value(*base_rect),
            -4 * COORD_LIMIT <= r <= 4 * COORD_LIMIT,
    {
        if let PartType::ScrollBarX(scroll_bar_state) = &self.part_type {
            return scroll_bar_state.length;
        }
        if self.x_end.kind == AnchorKind::Ignore {
            0
        } else {
            resolve_anchor(self.x_end, base_rect.x_value(), base_rect.width_value()) - self.x_value(base_rect)
        }
    }

    /// Height; a vertical scrollbar's height is its thumb length.
    pub fn height_value(&self, base_rect: &BaseRect) -> (r: i64)
        requires
            self.wf_shallow(),
            base_rect.wf(),
        ensures
            r == self.spec_height_value(*base_rect),
            -4 * COORD_LIMIT <= r <= 4 * COORD_LIMIT,
    {
        if let PartType::ScrollBarY(scroll_bar_state) = &self.part_type {
            return scroll_bar_state.length;
        }
        if self.y_end.kind == AnchorKind::Ignore {
            0
        } else {
            resolve_anchor(self.y_end, base_rect.y_value(), base_rect.height_value()) - self.y_value(base_rect)
        }
    }

    /// Whether `(x, y)` lies in the part's closed rectangle.
    pub fn is_inner(&self, x: i64, y: i64, base_rect: &BaseRect) -> (r: bool)
        requires
            self.wf_shallow(),
            base_rect.wf(),
            in_coord_range(x as int),
            in_coord_range(y as int),
        ensures
            r == self.spec_is_inner(x as int, y as int, *base_rect),
    {
        let x_value = self.x_value(base_rect);
        if x_value > x {
            return false;
        } else if x_value + self.width_value(base_rect) < x {
            return false;
        }
        let y_value = self.y_value(base_rect);
        if y_value > y {
            return false;
        } else if y_value + self.height_value(base_rect) < y {
            return false;
        }
        true
    }
}

impl PartRect {
    /// The first inner scrollbar under `(x, y)`.
    fn first_bar_hit(&self, x: i64, y: i64, base_rect: &BaseRect) -> (r: Option<usize>)
        requires
            self.wf(),
            base_rect.wf(),
            in_coord_range(x as int),
            in_coord_range(y as int),
        ensures
            r matches Some(j) ==> {
                &&& j < self.internal_part_rect@.len()
                &&& self.internal_part_rect@[j as int].is_bar_hit(x as int, y as int, *base_rect)
                &&& forall|k: int| 0 <= k < j ==> !(#[trigger] self.internal_part_rect@[k]).is_bar_hit(x as int, y as int, *base_rect)
            },
            r is None ==> forall|k: int| 0 <= k < self.internal_part_rect@.len() ==> !(#[trigger] self.internal_part_rect@[k]).is_bar_hit(x as int, y as int, *base_rect),
    {
        let n = self.internal_part_rect.len();
        let mut i: usize = 0;
        while i < n
            invariant
                n == self.internal_part_rect@.len(),
                0 <= i <= n,
                base_rect.wf(),
                in_coord_range(x as int),
                in_coord_range(y as int),
                self.wf(),
                forall|k: int| 0 <= k < i ==> !(#[trigger] self.internal_part_rect@[k]).is_bar_hit(x as int, y as int, *base_rect),
            decreases n - i,
        {
            let internal = &self.internal_part_rect[i];
            let is_bar = match &internal.part_type {
                PartType::ScrollBarX(_) | PartType::ScrollBarY(_) => true,
                _ => false,
            };
            if is_bar && internal.is_inner(x, y, base_rect) {
                return Some(i);
            }
            i = i + 1;
        }
        None
    }

    /// What `grab(x, y)` does to a part: Expand, Drag and Title parts take
    /// the grab; a Scrollable part hands it to the first of its scrollbars
    /// under the pointer and takes it only then; a Button is armed
    /// (`is_pushed`) without being grabbed; every other kind ignores the press.
    pub open spec fn grabs_to(self, new: PartRect, x: int, y: int, base: BaseRect) -> bool {
        &&& new.x_start == self.x_start
        &&& new.x_end == self.x_end
        &&& new.y_start == self.y_start
        &&& new.y_end == self.y_end
        &&& new.part_type == self.part_type
        &&& new.color == self.color
        &&& new.element_index == self.element_index
        &&& new.is_initialized == self.is_initialized
        &&& new.has_content == self.has_content
        &&& new.is_pushed == (self.is_pushed || self.part_type is Button)
        &&& self.part_type is Scrollable ==> {
            ||| (new.is_grabbed && exists|j: int|
                0 <= j < self.internal_part_rect@.len()
                && self.internal_part_rect@[j].is_bar_hit(x, y, base)
                && (forall|k: int| 0 <= k < j ==> !(#[trigger] self.internal_part_rect@[k]).is_bar_hit(x, y, base))
                && new.internal_part_rect@ == self.internal_part_rect@.update(
                    j, PartRect { is_grabbed: true, ..self.internal_part_rect@[j] }))
            ||| (!new.is_grabbed && (forall|k: int| 0 <= k < self.internal_part_rect@.len() ==> !(#[trigger] self.internal_part_rect@[k]).is_bar_hit(x, y, base))
                && new.internal_part_rect@ == self.internal_part_rect@)
        }
        &&& !(self.part_type is Scrollable) ==> {
            &&& new.is_grabbed == self.grabs_directly()
            &&& new.internal_part_rect@ == self.internal_part_rect@
        }
    }

    /// Routes a pointer press to this part (see `grabs_to`). Returns whether
    /// the part is now grabbed.
    pub fn grab(&mut self, x: i64, y: i64, base_rect: &BaseRect) -> (r: bool)
        requires
            old(self).wf(),
            base_rect.wf(),
            in_coord_range(x as int),
            in_coord_range(y as int),
        ensures
            final(self).wf(),
            r == final(self).is_grabbed,
            old(self).grabs_to(*final(self), x as int, y as int, *base_rect),
    {
        let grabbed = match self.part_type {
            PartType::Ignore
            | PartType::ClipPath
            | PartType::ScrollBarX(..)
            | PartType::ScrollBarY(..)
            | PartType::TableContent(..) => false,
            PartType::Scrollable => {
                match self.first_bar_hit(x, y, base_rect) {
                    Some(j) => {
                        self.internal_part_rect[j].is_grabbed = true;
                        proof {
                            assert(self.internal_part_rect@ =~= old(self).internal_part_rect@.update(
                                j as int, PartRect { is_grabbed: true, ..old(self).internal_part_rect@[j as int] }));
                        }
                        true
                    },
                    None => false,
                }
            },
            PartType::Expand | PartType::Drag | PartType::Title(..) => true,
            PartType::Button(_) => {
                self.is_pushed = true;
                false
            },
        };
        self.is_grabbed = grabbed;
        grabbed
    }

    /// What `update_base` does to a part at the end of a gesture: the part
    /// and each inner part are released, and each inner scrollbar's offset is
    /// committed, whether or not this part held the grab (a resize of the
    /// frame moves the thumbs of every scrollable part).
    pub open spec fn updates_base_to(self, new: PartRect) -> bool {
        &&& new == PartRect { internal_part_rect: new.internal_part_rect, is_grabbed: false, ..self }
        &&& new.internal_part_rect@.len() == self.internal_part_rect@.len()
        &&& forall|k: int| 0 <= k < self.internal_part_rect@.len()
            ==> new.internal_part_rect@[k] == (#[trigger] self.internal_part_rect@[k]).released()
    }

    /// Ends a gesture on this part (see `updates_base_to`).
    pub fn update_base(&mut self)
        requires
            old(self).wf(),
        ensures
            final(self).wf(),
            old(self).updates_base_to(*final(self)),
    {
        self.is_grabbed = false;
        let n = self.internal_part_rect.len();
        let mut i: usize = 0;
        while i < n
            invariant
                n == self.internal_part_rect@.len(),
                n == old(self).internal_part_rect@.len(),
                0 <= i <= n,
                old(self).wf(),
                self.wf(),
                !self.is_grabbed,
                self.part_type == old(self).part_type,
                self.x_start == old(self).x_start,
                self.x_end == old(self).x_end,
                self.y_start == old(self).y_start,
                self.y_end == old(self).y_end,
                self.is_pushed == old(self).is_pushed,
                self.element_index == old(self).element_index,
                self.color == old(self).color,
                self.is_initialized == old(self).is_initialized,
                self.has_content == old(self).has_content,
                forall|k: int| 0 <= k < i ==> self.internal_part_rect@[k] == (#[trigger] old(self).internal_part_rect@[k]).released(),
                forall|k: int| i <= k < n ==> self.internal_part_rect@[k] == old(self).internal_part_rect@[k],
            decreases n - i,
        {
            let internal = &mut self.internal_part_rect[i];
            internal.is_grabbed = false;
            match &mut internal.part_type {
                PartType::ScrollBarX(scroll_bar_state) => {
                    scroll_bar_state.start_amount.update_base();
                },
                PartType::ScrollBarY(scroll_bar_state) => {
                    scroll_bar_state.start_amount.update_base();
                },
                _ => {},
            }
            i = i + 1;
        }
    }
}

impl PartRect {
    /// A part with the given anchors, kind and no inner parts, at rest.
    pub open spec fn is_plain(&self, x_start: Anchor, x_end: Anchor, y_start: Anchor, y_end: Anchor, element_index: usize) -> bool {
        &&& self.x_start == x_start
        &&& self.x_end == x_end
        &&& self.y_start == y_start
        &&& self.y_end == y_end
        &&& self.element_index == element_index
        &&& !self.is_grabbed
        &&& !self.is_pushed
        &&& !self.is_initialized
    }

    /// The content area of a scrollable part, anchored at its top-left corner.
    pub fn default_content(margin: i64, offset_x: i64, offset_y: i64, part_type: PartType, element_index: usize) -> (r: PartRect)
        requires
            in_coord_range(margin + offset_x),
            in_coord_range(margin + offset_y),
            match part_type {
                PartType::ScrollBarX(s) => s.wf(),
                PartType::ScrollBarY(s) => s.wf(),
                _ => true,
            },
        ensures
            r.wf(),
            r.is_plain(
                Anchor { offset: (margin + offset_x) as i64, kind: AnchorKind::Start },
                Anchor { offset: 0, kind: AnchorKind::Ignore },
                Anchor { offset: (margin + offset_y) as i64, kind: AnchorKind::Start },
                Anchor { offset: 0, kind: AnchorKind::Ignore },
                element_index,
            ),
            r.part_type == part_type,
            r.color@ == Seq::<char>::empty(),
            r.internal_part_rect@.len() == 0,
            !r.has_content,
    {
        PartRect {
            x_start: Anchor::new(margin + offset_x, AnchorKind::Start),
            x_end: Anchor::new(0, AnchorKind::Ignore),
            y_start: Anchor::new(margin + offset_y, AnchorKind::Start),
            y_end: Anchor::new(0, AnchorKind::Ignore),
            color: String::new(),
            element_index,
            part_type,
            is_grabbed: false,
            is_pushed: false,
            internal_part_rect: Vec::new(),
            is_initialized: false,
            has_content: false,
        }
    }

    /// A scrollbar track along the bottom (`ScrollBarX`) or the right
    /// (`ScrollBarY`) edge of the frame, `thickness` thick, `margin` inside it.
    pub fn default_scroll_bar_xy(
        thickness: i64,
        margin: i64,
        offset: i64,
        part_type: PartType,
        color: String,
        element_index: usize,
    ) -> (r: PartRect)
        requires
            part_type.is_scroll_bar(),
            match part_type {
                PartType::ScrollBarX(s) => s.wf(),
                PartType::ScrollBarY(s) => s.wf(),
                _ => true,
            },
            in_coord_range(margin as int),
            in_coord_range(margin + offset),
            in_coord_range(-margin - thickness),
        ensures
            r.wf(),
            part_type is ScrollBarX ==> r.is_plain(
                Anchor { offset: (margin + offset) as i64, kind: AnchorKind::Start },
                Anchor { offset: 0, kind: AnchorKind::Ignore },
                Anchor { offset: (-margin - thickness) as i64, kind: AnchorKind::End },
                Anchor { offset: (-margin) as i64, kind: AnchorKind::End },
                element_index,
            ),
            part_type is ScrollBarY ==> r.is_plain(
                Anchor { offset: (-margin - thickness) as i64, kind: AnchorKind::End },
                Anchor { offset: (-margin) as i64, kind: AnchorKind::End },
                Anchor { offset: (margin + offset) as i64, kind: AnchorKind::Start },
                Anchor { offset: 0, kind: AnchorKind::Ignore },
                element_index,
            ),
            r.part_type == part_type,
            r.color == color,
            r.internal_part_rect@.len() == 0,
            !r.has_content,
    {
        let is_x = match part_type {
            PartType::ScrollBarX(..) => true,
            _ => false,
        };
        let along = Anchor::new(margin + offset, AnchorKind::Start);
        let open_end = Anchor::new(0, AnchorKind::Ignore);
        let across_start = Anchor::new(-margin - thickness, AnchorKind::End);
        let across_end = Anchor::new(-margin, AnchorKind::End);
        PartRect {
            x_start: if is_x { along } else { across_start },
            x_end: if is_x { open_end } else { across_end },
            y_start: if is_x { across_start } else { along },
            y_end: if is_x { across_end } else { open_end },
            color,
            element_index,
            part_type,
            is_grabbed: false,
            is_pushed: false,
            internal_part_rect: Vec::new(),
            is_initialized: false,
            has_content: false,
        }
    }

    /// A scrollable area `margin` inside the frame (below a header of
    /// `offset_y`), holding a content part and a horizontal and a vertical
    /// scrollbar, in that order.
    pub fn default_scrollable(
        margin: i64,
        offset_x: i64,
        offset_y: i64,
        thickness: i64,
        color: String,
        content_part_type: PartType,
        element_index: usize,
        content_index: usize,
        bar_x_index: usize,
        bar_y_index: usize,
    ) -> (r: PartRect)
        requires
            in_coord_range(margin as int),
            in_coord_range(-margin),
            in_coord_range(margin + offset_x),
            in_coord_range(margin + offset_y),
            in_coord_range(-margin - thickness),
            match content_part_type {
                PartType::ScrollBarX(s) => s.wf(),
                PartType::ScrollBarY(s) => s.wf(),
                _ => true,
            },
        ensures
            r.wf(),
            r.is_plain(
                Anchor { offset: (margin + offset_x) as i64, kind: AnchorKind::Start },
                Anchor { offset: (-margin) as i64, kind: AnchorKind::End },
                Anchor { offset: (margin + offset_y) as i64, kind: AnchorKind::Start },
                Anchor { offset: (-margin) as i64, kind: AnchorKind::End },
                element_index,
            ),
            r.part_type is Scrollable,
            r.color == color,
            r.internal_part_rect@.len() == 3,
            r.internal_part_rect@[0].part_type == content_part_type,
            r.internal_part_rect@[0].element_index == content_index,
            r.internal_part_rect@[1].part_type == PartType::ScrollBarX(ScrollBarState::new_spec()),
            r.internal_part_rect@[1].element_index == bar_x_index,
            r.internal_part_rect@[2].part_type == PartType::ScrollBarY(ScrollBarState::new_spec()),
            r.internal_part_rect@[2].element_index == bar_y_index,
            !r.has_content,
    {
        let content = PartRect::default_content(margin, 0, offset_y, content_part_type, content_index);
        let bar_x = PartRect::default_scroll_bar_xy(
            thickness,
            margin,
            offset_x,
            PartType::ScrollBarX(ScrollBarState::new()),
            String::new(),
            bar_x_index,
        );
        let bar_y = PartRect::default_scroll_bar_xy(
            thickness,
            margin,
            offset_y,
            PartType::ScrollBarY(ScrollBarState::new()),
            String::new(),
            bar_y_index,
        );
        let mut internal_part_rect: Vec<PartRect> = Vec::new();
        internal_part_rect.push(content);
        internal_part_rect.push(bar_x);
        internal_part_rect.push(bar_y);
        PartRect {
            x_start: Anchor::new(margin + offset_x, AnchorKind::Start),
            x_end: Anchor::new(-margin, AnchorKind::End),
            y_start: Anchor::new(margin + offset_y, AnchorKind::Start),
            y_end: Anchor::new(-margin, AnchorKind::End),
            color,
            element_index,
            part_type: PartType::Scrollable,
            is_grabbed: false,
            is_pushed: false,
            internal_part_rect,
            is_initialized: false,
            has_content: false,
        }
    }

    /// A title bar `margin` inside the top of the frame, `bg_height` high.
    pub fn default_title_bg(title: String, margin: i64, bg_height: i64, color: String, element_index: usize) -> (r: PartRect)
        requires
            in_coord_range(margin as int),
            in_coord_range(-margin),
            in_coord_range(margin + bg_height),
        ensures
            r.wf(),
            r.is_plain(
                Anchor { offset: margin, kind: AnchorKind::Start },
                Anchor { offset: (-margin) as i64, kind: AnchorKind::End },
                Anchor { offset: margin, kind: AnchorKind::Start },
                Anchor { offset: (margin + bg_height) as i64, kind: AnchorKind::Start },
                element_index,
            ),
            r.part_type == PartType::Title(title),
            r.color == color,
            r.internal_part_rect@.len() == 0,
            !r.has_content,
    {
        PartRect {
            x_start: Anchor::new(margin, AnchorKind::Start),
            x_end: Anchor::new(-margin, AnchorKind::End),
            y_start: Anchor::new(margin, AnchorKind::Start),
            y_end: Anchor::new(margin + bg_height, AnchorKind::Start),
            color,
            element_index,
            part_type: PartType::Title(title),
            is_grabbed: false,
            is_pushed: false,
            internal_part_rect: Vec::new(),
            is_initialized: false,
            has_content: false,
        }
    }

    /// A square button of side `size` whose top-left corner is at the given anchors.
    pub fn default_button(
        x_amount: Anchor,
        y_amount: Anchor,
        size: i64,
        color: String,
        element_index: usize,
        button_type: ButtonType,
    ) -> (r: PartRect)
        requires
            in_coord_range(x_amount.offset as int),
            in_coord_range(y_amount.offset as int),
            in_coord_range(x_amount.offset + size),
            in_coord_range(y_amount.offset + size),
        ensures
            r.wf(),
            r.is_plain(
                x_amount,
                Anchor { offset: (x_amount.offset + size) as i64, kind: x_amount.kind },
                y_amount,
                Anchor { offset: (y_amount.offset + size) as i64, kind: y_amount.kind },
                element_index,
            ),
            r.part_type == PartType::Button(button_type),
            r.color == color,
            r.internal_part_rect@.len() == 0,
            r.has_content,
    {
        PartRect {
            x_start: x_amount,
            x_end: Anchor::new(x_amount.offset + size, x_amount.kind),
            y_start: y_amount,
            y_end: Anchor::new(y_amount.offset + size, y_amount.kind),
            color,
            element_index,
            part_type: PartType::Button(button_type),
            is_grabbed: false,
            is_pushed: false,
            internal_part_rect: Vec::new(),
            is_initialized: false,
            has_content: true,
        }
    }
}

/// How far one inner part reaches along an axis for scrollbar sizing: its own
/// extent, or its measured content plus padding when that is larger.
/// Scrollbars and clip paths do not count.
pub open spec fn item_extent(p: PartRect, base: BaseRect, rendered: Seq<Option<Size>>, horizontal: bool) -> int {
    if p.part_type.is_scroll_bar() || p.part_type is ClipPath {
        0
    } else {
        let own = if horizontal { p.spec_width_value(base) } else { p.spec_height_value(base) };
        match measured_at(rendered, p.element_index as int) {
            Some(sz) => max_int(own, (if horizontal { sz.width as int } else { sz.height as int }) + CONTENT_PADDING),
            None => own,
        }
    }
}

/// The largest extent among inner parts, and at least 0.
pub open spec fn content_extent(parts: Seq<PartRect>, base: BaseRect, rendered: Seq<Option<Size>>, horizontal: bool) -> int
    decreases parts.len(),
{
    if parts.len() == 0 {
        0
    } else {
        max_int(content_extent(parts.drop_last(), base, rendered, horizontal), item_extent(parts.last(), base, rendered, horizontal))
    }
}

/// An inner part with its scrollbar, if it is one, recomputed for the given
/// content extents and viewport sizes.
pub open spec fn refreshed_bar(p: PartRect, content_w: int, content_h: int, view_w: int, view_h: int) -> PartRect {
    match p.part_type {
        PartType::ScrollBarX(s) => PartRect { part_type: PartType::ScrollBarX(s.updated(content_w, view_w)), ..p },
        PartType::ScrollBarY(s) => PartRect { part_type: PartType::ScrollBarY(s.updated(content_h, view_h)), ..p },
        _ => p,
    }
}

impl PartRect {
    /// What `refresh_scroll_bars` does: on a Scrollable part every inner
    /// scrollbar is updated from the widest and tallest inner content and
    /// the part's own size; other parts are unchanged.
    pub open spec fn refreshes_to(self, new: PartRect, base: BaseRect, rendered: Seq<Option<Size>>) -> bool {
        if self.part_type is Scrollable {
            let cw = content_extent(self.internal_part_rect@, base, rendered, true);
            let ch = content_extent(self.internal_part_rect@, base, rendered, false);
            let vw = self.spec_width_value(base);
            let vh = self.spec_height_value(base);
            &&& new == PartRect { internal_part_rect: new.internal_part_rect, ..self }
            &&& new.internal_part_rect@.len() == self.internal_part_rect@.len()
            &&& forall|k: int| 0 <= k < self.internal_part_rect@.len()
                ==> new.internal_part_rect@[k] == refreshed_bar(#[trigger] self.internal_part_rect@[k], cw, ch, vw, vh)
        } else {
            new == self
        }
    }

    /// What `drag_grabbed_bar` does: the first grabbed inner scrollbar's thumb
    /// follows the pointer delta along this part's width or height.
    pub open spec fn drags_bar_to(self, new: PartRect, delta: Point, base: BaseRect) -> bool {
        &&& new == PartRect { internal_part_rect: new.internal_part_rect, ..self }
        &&& {
            ||| (forall|k: int| 0 <= k < self.internal_part_rect@.len() ==> !(#[trigger] self.internal_part_rect@[k]).is_grabbed)
                && new.internal_part_rect@ == self.internal_part_rect@
            ||| exists|j: int|
                0 <= j < self.internal_part_rect@.len()
                && self.internal_part_rect@[j].is_grabbed
                && (forall|k: int| 0 <= k < j ==> !(#[trigger] self.internal_part_rect@[k]).is_grabbed)
                && new.internal_part_rect@ == self.internal_part_rect@.update(j, match self.internal_part_rect@[j].part_type {
                    PartType::ScrollBarX(s) => PartRect {
                        part_type: PartType::ScrollBarX(s.dragged(delta.x as int, self.spec_width_value(base))),
                        ..self.internal_part_rect@[j]
                    },
                    PartType::ScrollBarY(s) => PartRect {
                        part_type: PartType::ScrollBarY(s.dragged(delta.y as int, self.spec_height_value(base))),
                        ..self.internal_part_rect@[j]
                    },
                    _ => self.internal_part_rect@[j],
                })
        }
    }

    fn content_extents(&self, base_rect: &BaseRect, rendered: &Vec<Option<Size>>) -> (r: (i64, i64))
        requires
            self.wf(),
            base_rect.wf(),
        ensures
            r.0 == content_extent(self.internal_part_rect@, *base_rect, rendered@, true),
            r.1 == content_extent(self.internal_part_rect@, *base_rect, rendered@, false),
            0 <= r.0 <= 4 * COORD_LIMIT,
            0 <= r.1 <= 4 * COORD_LIMIT,
    {
        let n = self.internal_part_rect.len();
        let mut internal_max_width: i64 = 0;
        let mut internal_max_height: i64 = 0;
        let mut i: usize = 0;
        proof {
            assert(self.internal_part_rect@.subrange(0, 0).len() == 0);
        }
        while i < n
            invariant
                n == self.internal_part_rect@.len(),
                0 <= i <= n,
                self.wf(),
                base_rect.wf(),
                internal_max_width == content_extent(self.internal_part_rect@.subrange(0, i as int), *base_rect, rendered@, true),
                internal_max_height == content_extent(self.internal_part_rect@.subrange(0, i as int), *base_rect, rendered@, false),
                0 <= internal_max_width <= 4 * COORD_LIMIT,
                0 <= internal_max_height <= 4 * COORD_LIMIT,
            decreases n - i,
        {
            let internal = &self.internal_part_rect[i];
            proof {
                let pre = self.internal_part_rect@.subrange(0, i + 1);
                assert(pre.drop_last() =~= self.internal_part_rect@.subrange(0, i as int));
                assert(pre.last() == self.internal_part_rect@[i as int]);
            }
            match internal.part_type {
                PartType::ScrollBarX(..) | PartType::ScrollBarY(..) | PartType::ClipPath => {},
                _ => {
                    let own_width = internal.width_value(base_rect);
                    let own_height = internal.height_value(base_rect);
                    let (item_width, item_height) = match rendered_size(rendered, internal.element_index) {
                        Some(sz) => (
                            if own_width >= sz.width + CONTENT_PADDING { own_width } else { sz.width + CONTENT_PADDING },
                            if own_height >= sz.height + CONTENT_PADDING { own_height } else { sz.height + CONTENT_PADDING },
                        ),
                        None => (own_width, own_height),
                    };
                    if item_width > internal_max_width {
                        internal_max_width = item_width;
                    }
                    if item_height > internal_max_height {
                        internal_max_height = item_height;
                    }
                },
            }
            i = i + 1;
        }
        proof {
            assert(self.internal_part_rect@.subrange(0, n as int) =~= self.internal_part_rect@);
        }
        (internal_max_width, internal_max_height)
    }

    /// Recomputes every inner scrollbar of a Scrollable part from the current
    /// content and viewport sizes (see `refreshes_to`).
    pub fn refresh_scroll_bars(&mut self, base_rect: &BaseRect, rendered: &Vec<Option<Size>>)
        requires
            old(self).wf(),
            base_rect.wf(),
        ensures
            final(self).wf(),
            old(self).refreshes_to(*final(self), *base_rect, rendered@),
    {
        if let PartType::Scrollable = self.part_type {
            let (internal_max_width, internal_max_height) = self.content_extents(base_rect, rendered);
            let scrollable_width = self.width_value(base_rect);
            let scrollable_height = self.height_value(base_rect);
            let n = self.internal_part_rect.len();
            let mut i: usize = 0;
            while i < n
                invariant
                    n == self.internal_part_rect@.len(),
                    n == old(self).internal_part_rect@.len(),
                    0 <= i <= n,
                    self.wf(),
                    base_rect.wf(),
                    old(self).wf(),
                    old(self).part_type is Scrollable,
                    *self == (PartRect { internal_part_rect: self.internal_part_rect, ..*old(self) }),
                    internal_max_width == content_extent(old(self).internal_part_rect@, *base_rect, rendered@, true),
                    internal_max_height == content_extent(old(self).internal_part_rect@, *base_rect, rendered@, false),
                    0 <= internal_max_width <= 4 * COORD_LIMIT,
                    0 <= internal_max_height <= 4 * COORD_LIMIT,
                    scrollable_width == old(self).spec_width_value(*base_rect),
                    scrollable_height == old(self).spec_height_value(*base_rect),
                    in_extent_range(scrollable_width as int),
                    in_extent_range(scrollable_height as int),
                    forall|k: int| 0 <= k < i ==> self.internal_part_rect@[k] == refreshed_bar(
                        #[trigger] old(self).internal_part_rect@[k], internal_max_width as int, internal_max_height as int,
                        scrollable_width as int, scrollable_height as int),
                    forall|k: int| i <= k < n ==> self.internal_part_rect@[k] == old(self).internal_part_rect@[k],
                decreases n - i,
            {
                match &mut self.internal_part_rect[i].part_type {
                    PartType::ScrollBarX(scroll_bar_state) => {
                        scroll_bar_state.update(internal_max_width, scrollable_width);
                    },
                    PartType::ScrollBarY(scroll_bar_state) => {
                        scroll_bar_state.update(internal_max_height, scrollable_height);
                    },
                    _ => {},
                }
                i = i + 1;
            }
        }
    }

    /// Moves the thumb of the first grabbed inner scrollbar by the pointer
    /// delta (see `drags_bar_to`).
    pub fn drag_grabbed_bar(&mut self, delta_point: Point, base_rect: &BaseRect)
        requires
            old(self).wf(),
            base_rect.wf(),
            -2 * COORD_LIMIT <= delta_point.x <= 2 * COORD_LIMIT,
            -2 * COORD_LIMIT <= delta_point.y <= 2 * COORD_LIMIT,
        ensures
            final(self).wf(),
            old(self).drags_bar_to(*final(self), delta_point, *base_rect),
    {
        let parent_width = self.width_value(base_rect);
        let parent_height = self.height_value(base_rect);
        let n = self.internal_part_rect.len();
        let mut i: usize = 0;
        while i < n
            invariant
                n == self.internal_part_rect@.len(),
                0 <= i <= n,
                self.wf(),
                *self == *old(self),
                forall|k: int| 0 <= k < i ==> !(#[trigger] self.internal_part_rect@[k]).is_grabbed,
            ensures
                0 <= i <= n,
                *self == *old(self),
                forall|k: int| 0 <= k < i ==> !(#[trigger] self.internal_part_rect@[k]).is_grabbed,
                i < n ==> self.internal_part_rect@[i as int].is_grabbed,
            decreases n - i,
        {
            if self.internal_part_rect[i].is_grabbed {
                break;
            }
            i = i + 1;
        }
        if i < n {
            match &mut self.internal_part_rect[i].part_type {
                PartType::ScrollBarX(scroll_bar_state) => {
                    scroll_bar_state.drag(delta_point.x, parent_width);
                },
                PartType::ScrollBarY(scroll_bar_state) => {
                    scroll_bar_state.drag(delta_point.y, parent_height);
                },
                _ => {},
            }
            proof {
                let j = i as int;
                let old_j = old(self).internal_part_rect@[j];
                let expected = match old_j.part_type {
                    PartType::ScrollBarX(s) => PartRect {
                        part_type: PartType::ScrollBarX(s.dragged(delta_point.x as int, old(self).spec_width_value(*base_rect))),
                        ..old_j
                    },
                    PartType::ScrollBarY(s) => PartRect {
                        part_type: PartType::ScrollBarY(s.dragged(delta_point.y as int, old(self).spec_height_value(*base_rect))),
                        ..old_j
                    },
                    _ => old_j,
                };
                assert(self.internal_part_rect@ =~= old(self).internal_part_rect@.update(j, expected));
            }
        } else {
            proof {
                assert(self.internal_part_rect@ =~= old(self).internal_part_rect@);
            }
        }
    }
}

/// Padding added around measured content when sizing scrollbars.
pub const CONTENT_PADDING: i64 = 10;

/// Thickness of a scrollbar track.
pub const BAR_THICKNESS: i64 = 10;

/// A content extent fits a viewport when it exceeds it by at most 2%.
pub open spec fn ratio_within(extent: int, viewport: int) -> bool {
    100 * extent <= 102 * viewport
}

/// How far content is shifted for a thumb at `start` on a track of
/// `viewport - bar` units: proportionally over the `extent - viewport`
/// units that do not fit, rounded down; no shift when either is not positive.
pub open spec fn scroll_offset(start: int, extent: int, viewport: int, bar: int) -> int {
    if viewport - bar > 0 && extent - viewport > 0 {
        start * (extent - viewport) / (viewport - bar)
    } else {
        0
    }
}

/// Which scrollbars of a scrollable part show and how far its content is shifted.
#[derive(Clone, Copy, Debug, PartialEq, Eq, Structural)]
pub struct ScrollView {
    pub show_x: bool,
    pub show_y: bool,
    pub offset_x: i64,
    pub offset_y: i64,
}

/// The first inner scrollbar state of the given direction.
pub open spec fn first_bar(parts: Seq<PartRect>, horizontal: bool) -> Option<ScrollBarState>
    decreases parts.len(),
{
    if parts.len() == 0 {
        None
    } else {
        match parts[0].part_type {
            PartType::ScrollBarX(s) if horizontal => Some(s),
            PartType::ScrollBarY(s) if !horizontal => Some(s),
            _ => first_bar(parts.drop_first(), horizontal),
        }
    }
}

/// The index of the first inner table content part.
pub open spec fn first_content(parts: Seq<PartRect>) -> Option<int>
    decreases parts.len(),
{
    if parts.len() == 0 {
        None
    } else if parts[0].part_type is TableContent {
        Some(0)
    } else {
        match first_content(parts.drop_first()) {
            Some(i) => Some(i + 1),
            None => None,
        }
    }
}

impl PartRect {
    /// The measured size of this part's first table content, with that
    /// content's element index; `None` when there is no such part or nothing
    /// was measured for it.
    pub open spec fn spec_internal_content_size(&self, rendered: Seq<Option<Size>>) -> Option<(Size, usize)> {
        match first_content(self.internal_part_rect@) {
            Some(i) => match measured_at(rendered, self.internal_part_rect@[i].element_index as int) {
                Some(size) => Some((size, self.internal_part_rect@[i].element_index)),
                None => None,
            },
            None => None,
        }
    }

    pub open spec fn spec_scroll_view(&self, base: BaseRect, content: Size) -> ScrollView {
        let w = content.width + CONTENT_PADDING;
        let h = content.height + CONTENT_PADDING;
        let bw = self.spec_width_value(base);
        let bh = self.spec_height_value(base);
        let both_fit = ratio_within(w, bw) && ratio_within(h, bh);
        let show_x = !(ratio_within(w + BAR_THICKNESS, bw) || both_fit || bh <= 0 || bw < 0);
        let show_y = !(ratio_within(h + BAR_THICKNESS, bh) || both_fit || bh < 0);
        ScrollView {
            show_x,
            show_y,
            offset_x: if !show_x { 0 } else {
                match first_bar(self.internal_part_rect@, true) {
                    Some(s) => scroll_offset(s.start_amount.spec_value(), w, bw, s.length as int) as i64,
                    None => 0,
                }
            },
            offset_y: if !show_y { 0 } else {
                match first_bar(self.internal_part_rect@, false) {
                    Some(s) => scroll_offset(s.start_amount.spec_value(), h, bh, s.length as int) as i64,
                    None => 0,
                }
            },
        }
    }

    fn first_scroll_bar(&self, horizontal: bool) -> (r: Option<ScrollBarState>)
        requires
            self.wf(),
        ensures
            r == first_bar(self.internal_part_rect@, horizontal),
            r matches Some(s) ==> s.wf(),
    {
        let n = self.internal_part_rect.len();
        let mut i: usize = 0;
        proof {
            assert(self.internal_part_rect@.subrange(0, n as int) =~= self.internal_part_rect@);
        }
        while i < n
            invariant
                n == self.internal_part_rect@.len(),
                0 <= i <= n,
                self.wf(),
                first_bar(self.internal_part_rect@.subrange(i as int, n as int), horizontal)
                    == first_bar(self.internal_part_rect@, horizontal),
            decreases n - i,
        {
            proof {
                let rest = self.internal_part_rect@.subrange(i as int, n as int);
                assert(rest.drop_first() =~= self.internal_part_rect@.subrange(i + 1, n as int));
                assert(rest[0] == self.internal_part_rect@[i as int]);
            }
            match &self.internal_part_rect[i].part_type {
                PartType::ScrollBarX(s) => {
                    if horizontal {
                        return Some(*s);
                    }
                },
                PartType::ScrollBarY(s) => {
                    if !horizontal {
                        return Some(*s);
                    }
                },
                _ => {},
            }
            i = i + 1;
        }
        proof {
            assert(self.internal_part_rect@.subrange(n as int, n as int).len() == 0);
        }
        None
    }

    /// Looks up the measured size of this part's first table content.
    pub fn get_internal_content_size(&self, rendered: &Vec<Option<Size>>) -> (r: Option<(Size, usize)>)
        ensures
            r == self.spec_internal_content_size(rendered@),
            r matches Some((size, _)) ==> 0 <= size.width <= COORD_LIMIT && 0 <= size.height <= COORD_LIMIT,
    {
        let n = self.internal_part_rect.len();
        let mut i: usize = 0;
        while i < n
            invariant
                n == self.internal_part_rect@.len(),
                0 <= i <= n,
                forall|k: int| 0 <= k < i ==> !(#[trigger] self.internal_part_rect@[k].part_type is TableContent),
            decreases n - i,
        {
            if let PartType::TableContent(..) = self.internal_part_rect[i].part_type {
                proof {
                    lemma_first_content_at(self.internal_part_rect@, i as int);
                }
                let index = self.internal_part_rect[i].element_index;
                return match rendered_size(rendered, index) {
                    Some(size) => Some((size, index)),
                    None => None,
                };
            }
            i = i + 1;
        }
        proof {
            lemma_first_content_none(self.internal_part_rect@);
        }
        None
    }

    /// Decides which scrollbars of this scrollable part show, given the
    /// measured size of its content, and how far the content is shifted:
    /// a bar hides when the content (plus the other bar) fits within 2% or
    /// when the area's extent across it is negative (a minimized window), the
    /// horizontal bar also when the area has no height, and the shift is
    /// proportional to the thumb's offset.
    pub fn scroll_view(&self, base_rect: &BaseRect, content: Size) -> (r: ScrollView)
        requires
            self.wf(),
            base_rect.wf(),
            0 <= content.width <= COORD_LIMIT,
            0 <= content.height <= COORD_LIMIT,
        ensures
            r == self.spec_scroll_view(*base_rect, content),
    {
        let w = content.width + CONTENT_PADDING;
        let h = content.height + CONTENT_PADDING;
        let bw = self.width_value(base_rect);
        let bh = self.height_value(base_rect);
        let both_fit = 100 * w <= 102 * bw && 100 * h <= 102 * bh;
        let show_x = !(100 * (w + BAR_THICKNESS) <= 102 * bw || both_fit || bh <= 0 || bw < 0);
        let show_y = !(100 * (h + BAR_THICKNESS) <= 102 * bh || both_fit || bh < 0);
        let offset_x = if !show_x {
            0
        } else {
            match self.first_scroll_bar(true) {
                Some(s) => offset_of(s.start_amount.value(), w, bw, s.length),
                None => 0,
            }
        };
        let offset_y = if !show_y {
            0
        } else {
            match self.first_scroll_bar(false) {
                Some(s) => offset_of(s.start_amount.value(), h, bh, s.length),
                None => 0,
            }
        };
        ScrollView { show_x, show_y, offset_x, offset_y }
    }
}

proof fn lemma_first_content_at(parts: Seq<PartRect>, i: int)
    requires
        0 <= i < parts.len(),
        parts[i].part_type is TableContent,
        forall|k: int| 0 <= k < i ==> !(#[trigger] parts[k].part_type is TableContent),
    ensures
        first_content(parts) == Some(i),
    decreases i,
{
    if i > 0 {
        let rest = parts.drop_first();
        assert forall|k: int| 0 <= k < i - 1 implies !(#[trigger] rest[k].part_type is TableContent) by {
            assert(rest[k] == parts[k + 1]);
        }
        lemma_first_content_at(rest, i - 1);
    }
}

proof fn lemma_first_content_none(parts: Seq<PartRect>)
    requires
        forall|k: int| 0 <= k < parts.len() ==> !(#[trigger] parts[k].part_type is TableContent),
    ensures
        first_content(parts) is None,
    decreases parts.len(),
{
    if parts.len() > 0 {
        let rest = parts.drop_first();
        assert forall|k: int| 0 <= k < rest.len() implies !(#[trigger] rest[k].part_type is TableContent) by {
            assert(rest[k] == parts[k + 1]);
        }
        lemma_first_content_none(rest);
    }
}

fn offset_of(start: i64, extent: i64, viewport: i64, bar: i64) -> (r: i64)
    requires
        0 <= start <= 4 * COORD_LIMIT,
        0 <= bar <= 4 * COORD_LIMIT,
        -4 * COORD_LIMIT <= viewport <= 4 * COORD_LIMIT,
        0 <= extent <= 2 * COORD_LIMIT,
    ensures
        r == scroll_offset(start as int, extent as int, viewport as int, bar as int),
{
    let max_delta = viewport - bar;
    let room = extent - viewport;
    if max_delta > 0 && room > 0 {
        proof {
            assert(0 <= start * room <= 240_000_000_000_000_000) by (nonlinear_arith)
                requires 0 <= start <= 400_000_000, 0 < room <= 600_000_000;
            let prod: int = start * room;
            assert(0 <= prod / (max_delta as int) <= prod) by (nonlinear_arith)
                requires 0 <= prod, 0 < max_delta;
        }
        start * room / max_delta
    } else {
        0
    }
}

/// The rectangle test is closed: a point on the part's left or right edge
/// at any height within the part is inside it, and so is a point on its top
/// or bottom edge at any abscissa within the part.
pub proof fn lemma_is_inner_closed(p: PartRect, base: BaseRect, x: int, y: int)
    requires
        p.spec_width_value(base) >= 0,
        p.spec_height_value(base) >= 0,
    ensures
        p.spec_y_value(base) <= y <= p.spec_y_value(base) + p.spec_height_value(base) ==> {
            &&& p.spec_is_inner(p.spec_x_value(base), y, base)
            &&& p.spec_is_inner(p.spec_x_value(base) + p.spec_width_value(base), y, base)
        },
        p.spec_x_value(base) <= x <= p.spec_x_value(base) + p.spec_width_value(base) ==> {
            &&& p.spec_is_inner(x, p.spec_y_value(base), base)
            &&& p.spec_is_inner(x, p.spec_y_value(base) + p.spec_height_value(base), base)
        },
{
}

} // verus!
