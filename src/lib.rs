//! A resizable two-pane split for a character-grid user interface.
//!
//! [`DynamicLayout`] divides a container rectangle into two panes along one
//! axis, leaving the divider row (or column) between them, and
//! [`DynamicLayoutState`] keeps the divider's position across redraws and moves
//! it in response to pointer events.

pub mod geometry;
pub mod layout;
pub mod pointer;
pub mod state;

pub use geometry::Rect;
pub use layout::DynamicLayout;
pub use pointer::{MouseButton, MouseEvent, MouseEventKind};
pub use state::DynamicLayoutState;
