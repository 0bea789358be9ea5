//! The drawable items that react to input.

pub use crate::rectangle::Rectangle;
pub use crate::renderable::Renderable;
