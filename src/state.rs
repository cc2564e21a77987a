//! The persistent state of one split and the pointer state machine that
//! moves its divider.

use vstd::prelude::*;
use crate::geometry::{Rect, origin_of, extent_of};
use crate::pointer::{MouseButton, MouseEvent, MouseEventKind};

verus! {

/// What a split remembers across redraws: the axis and container of the most
/// recent layout query, the divider's offset from the container's near edge
/// (unset until first needed), and whether the divider is being dragged.
#[derive(Debug, Clone, Copy, PartialEq, Eq, Structural)]
pub struct DynamicLayoutState {
    pub vertical: bool,
    pub last_area: Rect,
    pub offset: Option<u16>,
    pub dragging: bool,
}

/// The offset a split takes when none has been set: the midpoint of `area`
/// along the split axis, rounded down.
pub open spec fn default_offset(area: Rect, vertical: bool) -> u16 {
    (extent_of(area, vertical) / 2) as u16
}

/// The offset in effect: the stored one if set, else the midpoint default.
pub open spec fn resolved_offset(offset: Option<u16>, area: Rect, vertical: bool) -> u16 {
    match offset {
        Some(o) => o,
        None => default_offset(area, vertical),
    }
}

/// Whether the cell at `(row, column)` lies in `area`, counting the row just
/// below it and the column just right of it as inside.
pub open spec fn point_in_rect(area: Rect, row: u16, column: u16) -> bool {
    &&& area.y <= row <= area.y + area.height
    &&& area.x <= column <= area.x + area.width
}

/// The pointer's coordinate along the split axis.
pub open spec fn pointer_along(e: MouseEvent, vertical: bool) -> u16 {
    if vertical {
        e.row
    } else {
        e.column
    }
}

/// The offset a drag to coordinate `p` along the split axis gives: the
/// distance of `p` from `area`'s near edge, held within `[0, extent]`.
pub open spec fn drag_offset(area: Rect, vertical: bool, p: u16) -> u16 {
    let o = origin_of(area, vertical);
    let e = extent_of(area, vertical);
    if p <= o {
        0
    } else if p > o + e {
        e
    } else {
        (p - o) as u16
    }
}

/// The state after `s` receives event `e`.
///
/// The offset is resolved first. Releasing the left button ends a drag;
/// pressing it on the divider line inside the last area starts one; dragging
/// with it held moves the divider to the pointer; anything else changes
/// nothing further.
pub open spec fn state_after_event(s: DynamicLayoutState, e: MouseEvent) -> DynamicLayoutState {
    let off = resolved_offset(s.offset, s.last_area, s.vertical);
    let settled = DynamicLayoutState { offset: Some(off), ..s };
    if s.dragging && e.kind == MouseEventKind::Up(MouseButton::Left) {
        DynamicLayoutState { dragging: false, ..settled }
    } else if !s.dragging && e.kind == MouseEventKind::Down(MouseButton::Left) {
        let on_divider = pointer_along(e, s.vertical) == origin_of(s.last_area, s.vertical) + off;
        if point_in_rect(s.last_area, e.row, e.column) && on_divider {
            DynamicLayoutState { dragging: true, ..settled }
        } else {
            settled
        }
    } else if s.dragging && e.kind == MouseEventKind::Drag(MouseButton::Left) {
        let p = pointer_along(e, s.vertical);
        DynamicLayoutState { offset: Some(drag_offset(s.last_area, s.vertical, p)), ..settled }
    } else {
        settled
    }
}

/// Whether `event` happened inside `area`, the far edges included.
pub fn mouse_in_rect(area: Rect, event: &MouseEvent) -> (r: bool)
    ensures
        r == point_in_rect(area, event.row, event.column),
{
    if (event.row as u32) < area.y as u32 {
        return false;
    }
    if event.row as u32 > area.y as u32 + area.height as u32 {
        return false;
    }
    if (event.column as u32) < area.x as u32 {
        return false;
    }
    if event.column as u32 > area.x as u32 + area.width as u32 {
        return false;
    }
    true
}

impl DynamicLayoutState {
    /// A fresh state: vertical, no area seen yet, offset unset, not dragging.
    pub fn new() -> (r: DynamicLayoutState)
        ensures
            r == (DynamicLayoutState {
                vertical: true,
                last_area: Rect { x: 0, y: 0, width: 0, height: 0 },
                offset: None,
                dragging: false,
            }),
    {
        DynamicLayoutState { vertical: true, last_area: Rect::default(), offset: None, dragging: false }
    }

    /// The offset in effect for `area` on the given axis, stored so that it
    /// stays put from now on.
    pub fn resolve_offset(&mut self, area: Rect, vertical: bool) -> (r: u16)
        ensures
            r == resolved_offset(old(self).offset, area, vertical),
            *final(self) == (DynamicLayoutState { offset: Some(r), ..*old(self) }),
    {
        let offset = match self.offset {
            Some(offset) => offset,
            None => area.extent_along(vertical) / 2,
        };
        self.offset = Some(offset);
        offset
    }

    /// Updates the state for one pointer event.
    pub fn handle_mouse_event(&mut self, event: &MouseEvent)
        ensures
            *final(self) == state_after_event(*old(self), *event),
    {
        let area = self.last_area;
        let vertical = self.vertical;
        let offset = self.resolve_offset(area, vertical);
        let origin = area.origin_along(vertical) as u32;
        let extent = area.extent_along(vertical) as u32;
        let pointer = if vertical { event.row } else { event.column };
        match (self.dragging, event.kind) {
            (true, MouseEventKind::Up(MouseButton::Left)) => {
                self.dragging = false;
            },
            (false, MouseEventKind::Down(MouseButton::Left)) => {
                if !mouse_in_rect(area, event) {
                    return;
                }
                if pointer as u32 == origin + offset as u32 {
                    self.dragging = true;
                }
            },
            (true, MouseEventKind::Drag(MouseButton::Left)) => {
                let split_offset: u16 = if pointer as u32 <= origin {
                    0
                } else if pointer as u32 > origin + extent {
                    extent as u16
                } else {
                    (pointer as u32 - origin) as u16
                };
                self.offset = Some(split_offset);
            },
            _ => {},
        }
    }
}

/// Releasing the left button ends a drag, wherever the pointer is.
pub proof fn lemma_release_ends_drag(s: DynamicLayoutState, e: MouseEvent)
    requires
        s.dragging,
        e.kind == MouseEventKind::Up(MouseButton::Left),
    ensures
        !state_after_event(s, e).dragging,
{
}

impl Default for DynamicLayoutState {
    /// A state that is horizontal, has seen no area, has no offset and is not
    /// dragging.
    fn default() -> (r: DynamicLayoutState)
        ensures
            r == (DynamicLayoutState {
                vertical: false,
                last_area: Rect { x: 0, y: 0, width: 0, height: 0 },
                offset: None,
                dragging: false,
            }),
    {
        DynamicLayoutState { vertical: false, last_area: Rect::default(), offset: None, dragging: false }
    }
}

} // verus!
