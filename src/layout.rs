//! The geometry of a split: from a container, an axis and an offset to the
//! two panes.

use vstd::prelude::*;
use crate::geometry::{Rect, clamp_coord, clamped_sum, origin_of, extent_of, with_span};
use crate::state::{DynamicLayoutState, resolved_offset};

verus! {

/// One layout query: the container to split and the axis to split it along
/// (`vertical`: panes above and below; otherwise left and right).
#[derive(Debug, Clone, Copy, PartialEq, Eq, Structural)]
pub struct DynamicLayout {
    pub vertical: bool,
    pub parent: Rect,
}

/// The two panes of `parent` split at `offset` along the axis.
///
/// The first pane keeps the container's near edge and gets extent
/// `origin + offset - 1`; the second starts at `origin + offset` and gets
/// extent `extent - offset`. Every coordinate and extent is held within the
/// grid's range: a value below zero becomes zero and one above the largest
/// coordinate becomes the largest. The cross axis is the container's in both.
pub open spec fn split_areas(parent: Rect, vertical: bool, offset: u16) -> (Rect, Rect) {
    let o = origin_of(parent, vertical);
    let e = extent_of(parent, vertical);
    (
        with_span(parent, vertical, o, clamp_coord(o + offset - 1)),
        with_span(parent, vertical, clamp_coord(o + offset), clamp_coord(e - offset)),
    )
}

/// The state after `layout` is queried with `s`: the axis and container are
/// recorded and the offset is resolved against the container.
pub open spec fn state_after_areas(layout: DynamicLayout, s: DynamicLayoutState) -> DynamicLayoutState {
    DynamicLayoutState {
        vertical: layout.vertical,
        last_area: layout.parent,
        offset: Some(resolved_offset(s.offset, layout.parent, layout.vertical)),
        dragging: s.dragging,
    }
}

/// The panes that querying `layout` with `s` gives.
pub open spec fn areas_result(layout: DynamicLayout, s: DynamicLayoutState) -> (Rect, Rect) {
    split_areas(
        layout.parent,
        layout.vertical,
        resolved_offset(s.offset, layout.parent, layout.vertical),
    )
}

impl DynamicLayout {
    /// A query that splits `parent` into a top and a bottom pane.
    pub fn vertical(parent: Rect) -> (r: DynamicLayout)
        ensures
            r == (DynamicLayout { vertical: true, parent }),
    {
        DynamicLayout { parent, vertical: true }
    }

    /// A query that splits `parent` into a left and a right pane.
    pub fn horizontal(parent: Rect) -> (r: DynamicLayout)
        ensures
            r == (DynamicLayout { vertical: false, parent }),
    {
        DynamicLayout { parent, vertical: false }
    }

    /// The two panes of the container, with `state` updated: it records this
    /// query's axis and container, and an unset offset becomes the midpoint.
    ///
    /// The container is not checked against the offset: where a pane's
    /// coordinate or extent would fall below zero or past the grid's largest
    /// coordinate it saturates there (see [`split_areas`]), so an offset of
    /// zero at the top edge gives a first pane of extent zero.
    pub fn areas(&self, state: &mut DynamicLayoutState) -> (r: (Rect, Rect))
        ensures
            *final(state) == state_after_areas(*self, *old(state)),
            r == areas_result(*self, *old(state)),
    {
        state.vertical = self.vertical;
        state.last_area = self.parent;
        let offset = state.resolve_offset(self.parent, self.vertical);
        let origin = self.parent.origin_along(self.vertical);
        let extent = self.parent.extent_along(self.vertical);
        let first = self.parent.with_span_along(
            self.vertical,
            origin,
            clamped_sum(origin, offset, 1),
        );
        let second = self.parent.with_span_along(
            self.vertical,
            clamped_sum(origin, offset, 0),
            clamped_sum(extent, 0, offset),
        );
        (first, second)
    }
}

impl Default for DynamicLayout {
    /// A horizontal query on the empty rectangle at the origin.
    fn default() -> (r: DynamicLayout)
        ensures
            r == (DynamicLayout { vertical: false, parent: Rect { x: 0, y: 0, width: 0, height: 0 } }),
    {
        DynamicLayout { vertical: false, parent: Rect::default() }
    }
}

/// Querying a layout a second time with the state the first query left gives
/// the same panes and leaves that state as it was.
pub proof fn lemma_areas_idempotent(layout: DynamicLayout, s: DynamicLayoutState)
    ensures
        state_after_areas(layout, state_after_areas(layout, s)) == state_after_areas(layout, s),
        areas_result(layout, state_after_areas(layout, s)) == areas_result(layout, s),
{
}

/// Both panes keep the container's origin and extent on the cross axis: for a
/// vertical split the same `x` and `width`, for a horizontal one the same `y`
/// and `height`, whatever the offset.
pub proof fn lemma_cross_axis_kept(layout: DynamicLayout, s: DynamicLayoutState)
    ensures
        ({
            let (first, second) = areas_result(layout, s);
            let p = layout.parent;
            if layout.vertical {
                first.x == p.x && first.width == p.width && second.x == p.x && second.width == p.width
            } else {
                first.y == p.y && first.height == p.height && second.y == p.y && second.height == p.height
            }
        }),
{
}

} // verus!
