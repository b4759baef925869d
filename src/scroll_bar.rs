use vstd::prelude::*;
use crate::math::{clamp_i64, clamp_int, Amount, COORD_LIMIT};

verus! {

/// Largest magnitude of a content or viewport extent handed to a scrollbar.
pub open spec fn in_extent_range(v: int) -> bool {
    -4 * COORD_LIMIT <= v <= 4 * COORD_LIMIT
}

/// A fraction `num / den` in `[0, 1]`.
#[derive(Clone, Copy, Debug, PartialEq, Eq, Structural)]
pub struct Fraction {
    pub num: i64,
    pub den: i64,
}

impl Fraction {
    pub open spec fn wf(self) -> bool {
        0 <= self.num <= self.den && 0 < self.den <= 4 * COORD_LIMIT
    }

    /// `num / den`, with `0 < den` and `0 <= num <= den`.
    pub fn new(num: i64, den: i64) -> (r: Fraction)
        requires
            0 <= num <= den,
            0 < den <= 4 * COORD_LIMIT,
        ensures
            r.num == num,
            r.den == den,
            r.wf(),
    {
        Fraction { num, den }
    }

    /// The fraction zero.
    pub fn zero() -> (r: Fraction)
        ensures
            r.num == 0,
            r.den == 1,
            r.wf(),
    {
        Fraction { num: 0, den: 1 }
    }
}

/// Thumb length for `content` shown through `scrollable`: none when the content
/// fits (or the viewport has collapsed), else `scrollable² / content`, rounded down.
pub open spec fn thumb_length(content: int, scrollable: int) -> int {
    if content <= scrollable || scrollable <= 0 {
        0
    } else {
        scrollable * scrollable / content
    }
}

/// A proportional scrollbar: the thumb's offset along its track, the persisted
/// scroll fraction and the thumb length.
#[derive(Clone, Copy, Debug, PartialEq, Eq, Structural)]
pub struct ScrollBarState {
    pub start_amount: Amount,
    pub percentage: Fraction,
    pub length: i64,
}

impl ScrollBarState {
    pub open spec fn wf(self) -> bool {
        &&& self.percentage.wf()
        &&& 0 <= self.length <= 4 * COORD_LIMIT
        &&& 0 <= self.start_amount.base <= 4 * COORD_LIMIT
        &&& 0 <= self.start_amount.spec_value() <= 4 * COORD_LIMIT
    }

    /// The thumb offset with its pending delta clamped into `[min, max]`.
    pub open spec fn constrained(self, min: int, max: int) -> ScrollBarState {
        let v = self.start_amount.spec_value();
        if v < min {
            ScrollBarState { start_amount: Amount { base: self.start_amount.base, delta: (min - self.start_amount.base) as i64 }, ..self }
        } else if v >= max {
            ScrollBarState { start_amount: Amount { base: self.start_amount.base, delta: (max - self.start_amount.base) as i64 }, ..self }
        } else {
            self
        }
    }

    /// The state after `update(content, scrollable)`: a new thumb length and,
    /// when the bar shows, the offset re-derived from the fraction.
    pub open spec fn updated(self, content: int, scrollable: int) -> ScrollBarState {
        let length = thumb_length(content, scrollable);
        if length == 0 && (content <= scrollable || scrollable <= 0) {
            ScrollBarState { length: 0, ..self }
        } else {
            let full = scrollable - length;
            let target = self.percentage.num * full / self.percentage.den as int;
            ScrollBarState {
                start_amount: Amount { base: self.start_amount.base, delta: (target - self.start_amount.base) as i64 },
                length: length as i64,
                ..self
            }.constrained(0, full)
        }
    }

    /// The state after the thumb is dragged by `delta` along a track of
    /// `track` units: the offset follows the pointer within `[0, track - length]`
    /// and the fraction is derived from it.
    pub open spec fn dragged(self, delta: int, track: int) -> ScrollBarState {
        let full = track - self.length;
        if full > 0 {
            let v = clamp_int(self.start_amount.base + delta, 0, full);
            ScrollBarState {
                start_amount: Amount { base: self.start_amount.base, delta: (v - self.start_amount.base) as i64 },
                percentage: Fraction { num: v as i64, den: full as i64 },
                length: self.length,
            }
        } else {
            ScrollBarState {
                start_amount: Amount { base: self.start_amount.base, delta: (-self.start_amount.base) as i64 },
                percentage: Fraction { num: 0, den: 1 },
                length: self.length,
            }
        }
    }

    /// A hidden bar at the start of its track.
    pub open spec fn new_spec() -> ScrollBarState {
        ScrollBarState { start_amount: Amount::new_spec(0), percentage: Fraction { num: 0, den: 1 }, length: 0 }
    }

    pub fn new() -> (r: ScrollBarState)
        ensures
            r.wf(),
            r == ScrollBarState::new_spec(),
    {
        ScrollBarState { start_amount: Amount::new(0), percentage: Fraction::zero(), length: 0 }
    }

    /// Clamps the thumb offset into `[min, max]` through its pending delta.
    pub fn update_delta_in_constraint(&mut self, min: i64, max: i64)
        requires
            0 <= min <= max <= 4 * COORD_LIMIT,
            0 <= old(self).start_amount.base <= 4 * COORD_LIMIT,
            -8 * COORD_LIMIT <= old(self).start_amount.delta <= 8 * COORD_LIMIT,
        ensures
            *final(self) == old(self).constrained(min as int, max as int),
            min <= final(self).start_amount.spec_value() <= max,
    {
        let value = self.start_amount.value();
        if value < min {
            self.start_amount.delta = min - self.start_amount.base;
        } else if value >= max {
            self.start_amount.delta = max - self.start_amount.base;
        }
    }

    /// Recomputes the thumb length from the content and viewport extents and,
    /// when the bar shows, re-derives the thumb offset from the fraction.
    pub fn update(&mut self, content: i64, scrollable: i64)
        requires
            old(self).wf(),
            in_extent_range(content as int),
            in_extent_range(scrollable as int),
        ensures
            *final(self) == old(self).updated(content as int, scrollable as int),
            final(self).wf(),
            final(self).length == thumb_length(content as int, scrollable as int),
    {
        if content <= scrollable || scrollable <= 0 {
            self.length = 0;
        } else {
            proof {
                lemma_thumb_length_bounds(content as int, scrollable as int);
            }
            self.length = scrollable * scrollable / content;
            let full_delta = scrollable - self.length;
            proof {
                lemma_scaled_fraction(self.percentage.num as int, self.percentage.den as int, full_delta as int);
            }
            let delta = self.percentage.num * full_delta / self.percentage.den;
            self.start_amount.delta = delta - self.start_amount.base;
            self.update_delta_in_constraint(0, full_delta);
        }
    }

    /// Moves the thumb by a pointer delta along a track of `track` units and
    /// derives the scroll fraction from the new offset.
    pub fn drag(&mut self, delta: i64, track: i64)
        requires
            old(self).wf(),
            -2 * COORD_LIMIT <= delta <= 2 * COORD_LIMIT,
            in_extent_range(track as int),
        ensures
            *final(self) == old(self).dragged(delta as int, track as int),
            final(self).wf(),
    {
        let full_delta = track - self.length;
        if full_delta > 0 {
            let v = clamp_i64(self.start_amount.base + delta, 0, full_delta);
            self.start_amount.delta = v - self.start_amount.base;
            self.percentage = Fraction::new(v, full_delta);
        } else {
            self.start_amount.delta = -self.start_amount.base;
            self.percentage = Fraction::zero();
        }
    }
}

proof fn lemma_thumb_length_bounds(content: int, scrollable: int)
    requires
        0 < scrollable < content,
        content <= 4 * COORD_LIMIT,
    ensures
        0 <= scrollable * scrollable / content < scrollable,
        scrollable * scrollable <= 16 * COORD_LIMIT * COORD_LIMIT,
        scrollable * scrollable >= content ==> scrollable * scrollable / content > 0,
{
    assert(scrollable * scrollable < scrollable * content) by (nonlinear_arith)
        requires 0 < scrollable < content;
    assert(scrollable * scrollable <= 16 * COORD_LIMIT * COORD_LIMIT) by (nonlinear_arith)
        requires 0 < scrollable <= 4 * COORD_LIMIT;
    assert(scrollable * scrollable / content < scrollable) by (nonlinear_arith)
        requires scrollable * scrollable < scrollable * content, 0 < content;
    assert(scrollable * scrollable / content >= 0) by (nonlinear_arith)
        requires 0 <= scrollable * scrollable, 0 < content;
    assert(scrollable * scrollable >= content ==> scrollable * scrollable / content > 0) by (nonlinear_arith)
        requires 0 < content;
}

proof fn lemma_scaled_fraction(num: int, den: int, full: int)
    requires
        0 <= num <= den,
        0 < den,
        0 < full <= 4 * COORD_LIMIT,
        den <= 4 * COORD_LIMIT,
    ensures
        0 <= num * full <= 16 * COORD_LIMIT * COORD_LIMIT,
        0 <= num * full / den <= full,
{
    assert(0 <= num * full <= den * full) by (nonlinear_arith)
        requires 0 <= num <= den, 0 < full;
    assert(den * full <= 16 * COORD_LIMIT * COORD_LIMIT) by (nonlinear_arith)
        requires 0 < den <= 4 * COORD_LIMIT, 0 < full <= 4 * COORD_LIMIT;
    assert(num * full / den <= full) by (nonlinear_arith)
        requires num * full <= den * full, 0 < den;
    assert(num * full / den >= 0) by (nonlinear_arith)
        requires num * full >= 0, 0 < den;
}

/// The thumb is absent exactly when the content fits; when it overflows a
/// viewport of positive extent the thumb is shorter than the viewport, and it
/// has positive length whenever `scrollable² >= content` (rounding down can
/// only reach zero below that).
pub proof fn lemma_thumb_length_range(content: int, scrollable: int)
    requires
        in_extent_range(content),
        in_extent_range(scrollable),
    ensures
        content <= scrollable ==> thumb_length(content, scrollable) == 0,
        content > scrollable > 0 ==> thumb_length(content, scrollable) < scrollable,
        content > scrollable > 0 ==> thumb_length(content, scrollable) >= 0,
        content > scrollable > 0 && scrollable * scrollable >= content ==> thumb_length(content, scrollable) > 0,
{
    if content > scrollable > 0 {
        lemma_thumb_length_bounds(content, scrollable);
    }
}

/// After `update` has fixed the thumb length, setting the fraction to one half
/// and updating again with the same extents puts the thumb at half its travel.
pub proof fn lemma_half_fraction_round_trip(s: ScrollBarState, content: int, scrollable: int)
    requires
        s.wf(),
        in_extent_range(content),
        in_extent_range(scrollable),
        content > scrollable > 0,
    ensures
        ({
            let first = s.updated(content, scrollable);
            let half = ScrollBarState { percentage: Fraction { num: 1, den: 2 }, ..first };
            let second = half.updated(content, scrollable);
            &&& second.length == first.length
            &&& second.start_amount.spec_value() == (scrollable - first.length) / 2
        }),
{
    lemma_thumb_length_bounds(content, scrollable);
    let first = s.updated(content, scrollable);
    let full = scrollable - first.length;
    assert(1 * full / 2 == full / 2);
    assert(0 <= full / 2 < full);
}

} // verus!
