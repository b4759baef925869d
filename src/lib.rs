//! Geometric interaction engine for draggable, resizable vector-graphic
//! windows: committed/pending scalars, edge-anchored frames, anchored part
//! rectangles with hit-testing, proportional scrollbars and the pointer
//! state machine that routes events through a scene of figures.
//!
//! All geometry lives in integer internal units. Pointer coordinates are
//! clamped into `[-COORD_LIMIT, COORD_LIMIT]` and frame edges into
//! `[0, COORD_LIMIT]`, so no arithmetic can overflow.

pub mod math;
pub mod base_rect;
pub mod scroll_bar;
pub mod part_rect;
pub mod figure;
pub mod binder;
pub mod content;
