use vstd::prelude::*;

verus! {

/// Largest magnitude of a coordinate in internal units.
pub const COORD_LIMIT: i64 = 100_000_000;

/// A coordinate inside the internal coordinate space.
pub open spec fn in_coord_range(v: int) -> bool {
    -COORD_LIMIT <= v <= COORD_LIMIT
}

/// A value that fits in an `i64`.
pub open spec fn fits_i64(v: int) -> bool {
    i64::MIN <= v <= i64::MAX
}

pub open spec fn max_int(a: int, b: int) -> int {
    if a >= b { a } else { b }
}

pub open spec fn clamp_int(v: int, lo: int, hi: int) -> int {
    if v < lo { lo } else if v > hi { hi } else { v }
}

/// Clamps `v` into `[lo, hi]`.
pub fn clamp_i64(v: i64, lo: i64, hi: i64) -> (r: i64)
    requires
        lo <= hi,
    ensures
        r == clamp_int(v as int, lo as int, hi as int),
        lo <= r <= hi,
{
    if v < lo {
        lo
    } else if v > hi {
        hi
    } else {
        v
    }
}

/// A point in internal units.
#[derive(Clone, Copy, Debug, PartialEq, Eq, Structural)]
pub struct Point {
    pub x: i64,
    pub y: i64,
}

impl Point {
    pub fn new() -> (r: Point)
        ensures
            r.x == 0,
            r.y == 0,
    {
        Point { x: 0, y: 0 }
    }

    pub open spec fn in_range(self) -> bool {
        in_coord_range(self.x as int) && in_coord_range(self.y as int)
    }
}

/// A rendered extent as measured by the drawing surface, in internal units.
#[derive(Clone, Copy, Debug, PartialEq, Eq, Structural)]
pub struct Size {
    pub width: i64,
    pub height: i64,
}

impl Size {
    /// The size with each side clamped into `[0, COORD_LIMIT]`.
    pub open spec fn spec_clamped(self) -> Size {
        Size {
            width: clamp_int(self.width as int, 0, COORD_LIMIT as int) as i64,
            height: clamp_int(self.height as int, 0, COORD_LIMIT as int) as i64,
        }
    }

    pub fn new(width: i64, height: i64) -> (r: Size)
        ensures
            r.width == width,
            r.height == height,
    {
        Size { width, height }
    }

    /// Clamps a measured size into the coordinate space.
    pub fn clamped(self) -> (r: Size)
        ensures
            r == self.spec_clamped(),
            0 <= r.width <= COORD_LIMIT,
            0 <= r.height <= COORD_LIMIT,
    {
        Size { width: clamp_i64(self.width, 0, COORD_LIMIT), height: clamp_i64(self.height, 0, COORD_LIMIT) }
    }
}

/// The measured size of the content drawn next to element `index`, if the
/// drawing surface reported one.
pub open spec fn measured_at(rendered: Seq<Option<Size>>, index: int) -> Option<Size> {
    if 0 <= index < rendered.len() {
        match rendered[index] {
            Some(s) => Some(s.spec_clamped()),
            None => None,
        }
    } else {
        None
    }
}

/// Looks up the measured size of the content drawn next to element `index`.
pub fn rendered_size(rendered: &Vec<Option<Size>>, index: usize) -> (r: Option<Size>)
    ensures
        r == measured_at(rendered@, index as int),
{
    if index < rendered.len() {
        match rendered[index] {
            Some(s) => Some(s.clamped()),
            None => None,
        }
    } else {
        None
    }
}

/// A two-phase scalar: a committed `base` plus a provisional `delta` that a
/// gesture in progress may overwrite freely.
#[derive(Clone, Copy, Debug, PartialEq, Eq, Structural)]
pub struct Amount {
    pub base: i64,
    pub delta: i64,
}

impl Amount {
    /// The value that is rendered: `base + delta`.
    pub open spec fn spec_value(self) -> int {
        self.base + self.delta
    }

    /// `base + delta` fits in an `i64`, so the amount can be read and committed.
    pub open spec fn fits(self) -> bool {
        fits_i64(self.spec_value())
    }

    /// The amount after its delta has been moved into its base.
    pub open spec fn committed(self) -> Amount
        recommends
            self.fits(),
    {
        Amount { base: (self.base + self.delta) as i64, delta: 0 }
    }

    pub open spec fn new_spec(value: i64) -> Amount {
        Amount { base: value, delta: 0 }
    }

    pub fn new(value: i64) -> (r: Amount)
        ensures
            r == Amount::new_spec(value),
    {
        Amount { delta: 0, base: value }
    }

    /// Commits the pending delta: `base += delta; delta = 0`.
    pub fn update_base(&mut self)
        requires
            old(self).fits(),
        ensures
            *final(self) == old(self).committed(),
            final(self).spec_value() == old(self).spec_value(),
    {
        self.base = self.base + self.delta;
        self.delta = 0;
    }

    pub fn value(&self) -> (r: i64)
        requires
            self.fits(),
        ensures
            r == self.spec_value(),
    {
        self.base + self.delta
    }
}

/// Committing twice is the same as committing once: the second commit finds a
/// zero delta and leaves the amount, and so its value, unchanged.
pub proof fn lemma_update_base_idempotent(a: Amount)
    requires
        a.fits(),
    ensures
        a.committed().fits(),
        a.committed().committed() == a.committed(),
        a.committed().committed().spec_value() == a.committed().spec_value(),
        a.committed().spec_value() == a.spec_value(),
{
}

/// A constrained length: an amount that never renders below `min`.
#[derive(Clone, Copy, Debug, PartialEq, Eq, Structural)]
pub struct Length {
    pub min: i64,
    pub amount: Amount,
    pub is_fixed: bool,
}

impl Length {
    /// The rendered length: `max(amount, min)`.
    pub open spec fn spec_value(self) -> int {
        max_int(self.amount.spec_value(), self.min as int)
    }

    /// The pending delta clamped so that `base + delta >= min`.
    pub open spec fn constrained(self) -> Length
        recommends
            fits_i64(self.min - self.amount.base),
    {
        if self.amount.spec_value() < self.min {
            Length {
                amount: Amount { base: self.amount.base, delta: (self.min - self.amount.base) as i64 },
                ..self
            }
        } else {
            self
        }
    }

    /// The length after `fix`: the base becomes `max(base + delta, min)`, the delta 0.
    pub open spec fn fixed(self) -> Length
        recommends
            self.amount.fits(),
    {
        Length {
            amount: Amount { base: max_int(self.amount.spec_value(), self.min as int) as i64, delta: 0 },
            ..self
        }
    }

    pub fn new_with_min(length: i64, min_length: i64) -> (r: Length)
        ensures
            r.min == min_length,
            r.amount == Amount::new_spec(length),
            !r.is_fixed,
    {
        Length { min: min_length, amount: Amount::new(length), is_fixed: false }
    }

    pub fn value(&self) -> (r: i64)
        requires
            self.amount.fits(),
        ensures
            r == self.spec_value(),
            r >= self.min,
    {
        let v = self.amount.value();
        if v >= self.min {
            v
        } else {
            self.min
        }
    }

    /// Commits and clamps in one step.
    pub fn fix(&mut self)
        requires
            old(self).amount.fits(),
        ensures
            *final(self) == old(self).fixed(),
            final(self).amount.base >= final(self).min,
            final(self).spec_value() == old(self).spec_value(),
    {
        let v = self.amount.base + self.amount.delta;
        self.amount.base = if v >= self.min {
            v
        } else {
            self.min
        };
        self.amount.delta = 0;
    }

    /// Clamps the pending delta so that `base + delta >= min` holds before commit.
    pub fn delta_constraint(&mut self)
        requires
            old(self).amount.fits(),
            fits_i64(old(self).min - old(self).amount.base),
        ensures
            *final(self) == old(self).constrained(),
            final(self).amount.spec_value() >= final(self).min,
            final(self).amount.spec_value() == old(self).spec_value(),
    {
        if self.amount.base + self.amount.delta < self.min {
            self.amount.delta = self.min - self.amount.base;
        }
    }
}

/// Whatever delta a length holds, and after each step that a gesture takes on
/// it (constraining the delta, committing), its rendered value is at least `min`.
pub proof fn lemma_length_never_below_min(l: Length)
    requires
        l.amount.fits(),
        fits_i64(l.min - l.amount.base),
    ensures
        l.spec_value() >= l.min,
        l.constrained().amount.spec_value() >= l.min,
        l.constrained().spec_value() >= l.min,
        l.fixed().amount.base >= l.min,
        l.fixed().spec_value() >= l.min,
{
}

} // verus!
