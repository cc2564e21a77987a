//! Pointer events as the split state machine reads them.

use vstd::prelude::*;

verus! {

/// A pointer button.
#[derive(Debug, Clone, Copy, PartialEq, Eq, Structural)]
pub enum MouseButton {
    Left,
    Right,
    Middle,
}

/// What happened to the pointer.
#[derive(Debug, Clone, Copy, PartialEq, Eq, Structural)]
pub enum MouseEventKind {
    /// A button was pressed.
    Down(MouseButton),
    /// A button was released.
    Up(MouseButton),
    /// The pointer moved while a button was held.
    Drag(MouseButton),
    /// The pointer moved with no button held.
    Moved,
    ScrollDown,
    ScrollUp,
    ScrollLeft,
    ScrollRight,
}

/// One pointer event: its kind and the grid cell it happened at.
#[derive(Debug, Clone, Copy, PartialEq, Eq, Structural)]
pub struct MouseEvent {
    pub kind: MouseEventKind,
    pub column: u16,
    pub row: u16,
}

impl MouseEvent {
    /// An event of the given kind at the given cell.
    pub fn new(kind: MouseEventKind, column: u16, row: u16) -> (r: MouseEvent)
        ensures
            r == (MouseEvent { kind, column, row }),
    {
        MouseEvent { kind, column, row }
    }
}

} // verus!
