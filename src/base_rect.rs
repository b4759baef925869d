use vstd::prelude::*;
use crate::math::{clamp_i64, clamp_int, in_coord_range, Amount, Length, Point, COORD_LIMIT};

verus! {

/// One axis of a frame: the near and far edge positions and the length
/// between them, which `move_by` keeps in lockstep.
#[derive(Clone, Copy, Debug, PartialEq, Eq, Structural)]
pub struct AxisSpan {
    /// Near edge (`x_amounts[0]`).
    pub near: Amount,
    /// Far edge (`x_amounts[1]`).
    pub far: Amount,
    /// Width or height, with its minimum.
    pub length: Length,
    /// Suppresses all movement on this axis.
    pub fixed: bool,
}

pub open spec fn min_int(a: int, b: int) -> int {
    if a <= b { a } else { b }
}

pub open spec fn abs_int(v: int) -> int {
    if v < 0 { -v } else { v }
}

impl AxisSpan {
    /// Edges lie in `[0, COORD_LIMIT]`, the length is at least its minimum,
    /// and far edge = near edge + length, both committed and live.
    pub open spec fn wf(self) -> bool {
        &&& 0 <= self.length.min
        &&& self.length.min <= self.length.amount.base
        &&& self.length.min <= self.length.amount.spec_value()
        &&& 0 <= self.near.base
        &&& 0 <= self.near.spec_value()
        &&& self.far.base == self.near.base + self.length.amount.base
        &&& self.far.spec_value() == self.near.spec_value() + self.length.amount.spec_value()
        &&& self.far.base <= COORD_LIMIT
        &&& self.far.spec_value() <= COORD_LIMIT
    }

    /// Which edge a gesture starting at `pos` moves: 0 near, 1 far. An edge
    /// already being dragged keeps the gesture; otherwise the strictly nearer
    /// edge wins, ties going to the far edge.
    pub open spec fn spec_near_point(self, pos: int) -> usize {
        if self.near.delta != 0 {
            0
        } else if self.far.delta != 0 {
            1
        } else if abs_int(pos - self.near.spec_value()) < abs_int(pos - self.far.spec_value()) {
            0
        } else {
            1
        }
    }

    /// The axis after a move event of `delta` from a gesture that started at `start`.
    pub open spec fn moved(self, start: int, delta: int, always_fixed: bool) -> AxisSpan {
        let lbase = self.length.amount.base;
        if self.length.is_fixed || always_fixed {
            let shift = clamp_int(delta, -self.near.base, COORD_LIMIT - self.far.base);
            AxisSpan {
                near: Amount { base: self.near.base, delta: shift as i64 },
                far: Amount { base: self.far.base, delta: shift as i64 },
                length: Length { amount: Amount { base: lbase, delta: 0 }, ..self.length },
                fixed: self.fixed,
            }
        } else if self.spec_near_point(start) == 0 {
            let d = min_int(if -delta >= self.length.min - lbase { -delta } else { self.length.min - lbase }, self.near.base as int);
            AxisSpan {
                near: Amount { base: self.near.base, delta: (-d) as i64 },
                far: Amount { base: self.far.base, delta: 0 },
                length: Length { amount: Amount { base: lbase, delta: d as i64 }, ..self.length },
                fixed: self.fixed,
            }
        } else {
            let d = clamp_int(delta, self.length.min - lbase, COORD_LIMIT - self.far.base);
            AxisSpan {
                near: Amount { base: self.near.base, delta: 0 },
                far: Amount { base: self.far.base, delta: d as i64 },
                length: Length { amount: Amount { base: lbase, delta: d as i64 }, ..self.length },
                fixed: self.fixed,
            }
        }
    }

    /// The axis with every pending delta committed.
    pub open spec fn committed(self) -> AxisSpan {
        AxisSpan {
            near: self.near.committed(),
            far: self.far.committed(),
            length: self.length.fixed(),
            fixed: self.fixed,
        }
    }

    /// The axis at rest with its length set to `len`, clamped into the
    /// length's minimum and the room left before `COORD_LIMIT`.
    pub open spec fn with_length(self, len: int) -> AxisSpan {
        let l = clamp_int(len, self.length.min as int, COORD_LIMIT - self.near.base);
        AxisSpan {
            near: Amount { base: self.near.base, delta: 0 },
            far: Amount { base: (self.near.base + l) as i64, delta: 0 },
            length: Length { amount: Amount { base: l as i64, delta: 0 }, ..self.length },
            fixed: self.fixed,
        }
    }

    /// A resting axis whose near edge is at `start`, holding `length`
    /// committed and clamped up to its minimum (the length it renders).
    pub open spec fn new_spec(start: i64, length: Length) -> AxisSpan {
        AxisSpan {
            near: Amount::new_spec(start),
            far: Amount::new_spec((start + length.fixed().amount.base) as i64),
            length: length.fixed(),
            fixed: false,
        }
    }

    /// A resting axis whose near edge is at `start` and whose length is
    /// `length`; a pending delta is committed and a length below its minimum
    /// is raised to it, which leaves the rendered length unchanged.
    pub fn new(start: i64, length: Length) -> (r: AxisSpan)
        requires
            0 <= length.min,
            length.amount.fits(),
            0 <= start,
            start + length.spec_value() <= COORD_LIMIT,
        ensures
            r.wf(),
            r == AxisSpan::new_spec(start, length),
            r.length.spec_value() == length.spec_value(),
    {
        let mut committed = length;
        committed.fix();
        AxisSpan {
            near: Amount::new(start),
            far: Amount::new(start + committed.amount.base),
            length: committed,
            fixed: false,
        }
    }

    pub fn near_point(&self, pos: i64) -> (r: usize)
        requires
            self.wf(),
            in_coord_range(pos as int),
        ensures
            r == self.spec_near_point(pos as int),
    {
        if self.near.delta != 0 {
            0
        } else if self.far.delta != 0 {
            1
        } else {
            let to_near = pos - self.near.value();
            let to_far = pos - self.far.value();
            let to_near_abs = if to_near < 0 { -to_near } else { to_near };
            let to_far_abs = if to_far < 0 { -to_far } else { to_far };
            if to_near_abs < to_far_abs {
                0
            } else {
                1
            }
        }
    }

    /// Applies one move event: a pure drag translates both edges, a resize
    /// moves the edge nearer to `start` and the length with it. Edges stay in
    /// `[0, COORD_LIMIT]` and the length at or above its minimum.
    pub fn move_by(&mut self, start: i64, delta: i64, always_fixed: bool)
        requires
            old(self).wf(),
            in_coord_range(start as int),
            -2 * COORD_LIMIT <= delta <= 2 * COORD_LIMIT,
        ensures
            *final(self) == old(self).moved(start as int, delta as int, always_fixed),
            final(self).wf(),
    {
        if self.length.is_fixed || always_fixed {
            let shift = clamp_i64(delta, -self.near.base, COORD_LIMIT - self.far.base);
            self.near.delta = shift;
            self.far.delta = shift;
            self.length.amount.delta = 0;
        } else {
            let index = self.near_point(start);
            if index == 0 {
                self.length.amount.delta = -delta;
                self.length.delta_constraint();
                if self.near.base - self.length.amount.delta < 0 {
                    self.length.amount.delta = self.near.base;
                }
                self.near.delta = -self.length.amount.delta;
                self.far.delta = 0;
            } else {
                self.length.amount.delta = delta;
                self.length.delta_constraint();
                if self.far.base + self.length.amount.delta > COORD_LIMIT {
                    self.length.amount.delta = COORD_LIMIT - self.far.base;
                }
                self.far.delta = self.length.amount.delta;
                self.near.delta = 0;
            }
        }
    }

    /// Commits every pending delta of the axis.
    pub fn update_base(&mut self)
        requires
            old(self).wf(),
        ensures
            *final(self) == old(self).committed(),
            final(self).wf(),
            final(self).near.spec_value() == old(self).near.spec_value(),
            final(self).length.spec_value() == old(self).length.spec_value(),
    {
        self.near.update_base();
        self.far.update_base();
        self.length.fix();
    }

    /// Sets the length at rest, keeping the far edge consistent with it.
    pub fn set_length(&mut self, len: i64)
        requires
            old(self).wf(),
        ensures
            *final(self) == old(self).with_length(len as int),
            final(self).wf(),
    {
        let l = clamp_i64(len, self.length.min, COORD_LIMIT - self.near.base);
        self.near.delta = 0;
        self.far = Amount::new(self.near.base + l);
        self.length.amount = Amount::new(l);
    }
}

/// A resize or drag step never leaves an edge below zero or a length below
/// its minimum, however large the (negative) delta of the step.
pub proof fn lemma_move_keeps_geometry(a: AxisSpan, start: int, delta: int, always_fixed: bool)
    requires
        a.wf(),
        in_coord_range(start),
        -2 * COORD_LIMIT <= delta <= 2 * COORD_LIMIT,
    ensures
        a.moved(start, delta, always_fixed).wf(),
        a.moved(start, delta, always_fixed).near.spec_value() >= 0,
        a.moved(start, delta, always_fixed).far.spec_value() >= 0,
        a.moved(start, delta, always_fixed).length.spec_value() >= a.length.min,
        a.moved(start, delta, always_fixed).length.amount.spec_value() >= a.length.min,
        a.moved(start, delta, always_fixed).committed().wf(),
        a.moved(start, delta, always_fixed).committed().length.amount.base >= a.length.min,
{
}

/// The outer frame of a figure, in scene coordinates.
#[derive(Debug)]
pub struct BaseRect {
    pub x: AxisSpan,
    pub y: AxisSpan,
    pub color: String,
    pub is_grabbed: bool,
    pub element_index: usize,
}

impl BaseRect {
    pub open spec fn wf(self) -> bool {
        self.x.wf() && self.y.wf()
    }

    pub open spec fn spec_x_value(self) -> int {
        self.x.near.spec_value()
    }

    pub open spec fn spec_y_value(self) -> int {
        self.y.near.spec_value()
    }

    pub open spec fn spec_width_value(self) -> int {
        self.x.length.spec_value()
    }

    pub open spec fn spec_height_value(self) -> int {
        self.y.length.spec_value()
    }

    /// The frame after a move event; fixed axes stay put.
    pub open spec fn moved(self, start_point: Point, delta_point: Point, always_fixed: bool) -> BaseRect {
        BaseRect {
            x: if self.x.fixed { self.x } else { self.x.moved(start_point.x as int, delta_point.x as int, always_fixed) },
            y: if self.y.fixed { self.y } else { self.y.moved(start_point.y as int, delta_point.y as int, always_fixed) },
            ..self
        }
    }

    /// The frame with every pending delta committed.
    pub open spec fn committed(self) -> BaseRect {
        BaseRect { x: self.x.committed(), y: self.y.committed(), ..self }
    }

    pub fn new(x: AxisSpan, y: AxisSpan, color: String, element_index: usize) -> (r: BaseRect)
        ensures
            r.x == x,
            r.y == y,
            r.color == color,
            r.element_index == element_index,
            !r.is_grabbed,
    {
        BaseRect { x, y, color, is_grabbed: false, element_index }
    }

    /// Near x edge, live.
    pub fn x_value(&self) -> (r: i64)
        requires
            self.wf(),
        ensures
            r == self.spec_x_value(),
            0 <= r <= COORD_LIMIT,
    {
        self.x.near.value()
    }

    /// Near y edge, live.
    pub fn y_value(&self) -> (r: i64)
        requires
            self.wf(),
        ensures
            r == self.spec_y_value(),
            0 <= r <= COORD_LIMIT,
    {
        self.y.near.value()
    }

    pub fn width_value(&self) -> (r: i64)
        requires
            self.wf(),
        ensures
            r == self.spec_width_value(),
            0 <= r <= COORD_LIMIT,
    {
        self.x.length.value()
    }

    pub fn height_value(&self) -> (r: i64)
        requires
            self.wf(),
        ensures
            r == self.spec_height_value(),
            0 <= r <= COORD_LIMIT,
    {
        self.y.length.value()
    }

    /// Applies a move event to each axis that is not fixed.
    pub fn move_xy(&mut self, start_point: Point, delta_point: Point, always_fixed: bool)
        requires
            old(self).wf(),
            start_point.in_range(),
            -2 * COORD_LIMIT <= delta_point.x <= 2 * COORD_LIMIT,
            -2 * COORD_LIMIT <= delta_point.y <= 2 * COORD_LIMIT,
        ensures
            final(self).wf(),
            *final(self) == old(self).moved(start_point, delta_point, always_fixed),
    {
        if !self.x.fixed {
            self.x.move_by(start_point.x, delta_point.x, always_fixed);
        }
        if !self.y.fixed {
            self.y.move_by(start_point.y, delta_point.y, always_fixed);
        }
    }

    /// Commits the pending deltas of both axes.
    pub fn update_base(&mut self)
        requires
            old(self).wf(),
        ensures
            final(self).wf(),
            *final(self) == old(self).committed(),
    {
        self.x.update_base();
        self.y.update_base();
    }
}

} // verus!
