//! The items that a component author needs.

pub use crate::component::Component;
pub use crate::geometry::Rect;
pub use crate::input::{Event, KeyCode, KeyModifiers, MouseButton, MouseEvent, MouseEventKind};
pub use crate::surface::{BoundedBuffer, BoundedCell};
