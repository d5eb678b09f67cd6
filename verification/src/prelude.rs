//! The items a typical caller needs, re-exported in one place.

pub use crate::commands::CommandList;
pub use crate::commands::IsBoundingBox;
pub use crate::commands::ShapeEncoder;
pub use crate::fill::Fill;
pub use crate::math::BoundingBox;
pub use crate::math::Point2;
pub use crate::math::Rgba;
pub use crate::renderer::Renderer;
pub use crate::renderer::Surface;
pub use crate::shapes::Ellipse;
pub use crate::shapes::Rectangle;
pub use crate::stroke::Stroke;
