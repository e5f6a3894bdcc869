//! A small terminal run-loop framework: a root component, a clipped drawing
//! surface over the terminal's cell grid, and the decisions of the loop that
//! drives them.

pub mod component;
pub mod components;
pub mod error;
pub mod geometry;
pub mod input;
pub mod prelude;
pub mod session;
pub mod surface;

pub use component::{handle_component_event, Component};
pub use error::Error;
pub use session::{handle_global_event, RunLoop, Status, Wake};
pub use surface::{BoundedBuffer, BoundedCell};
