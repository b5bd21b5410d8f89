//! A smooth curve rendered as a filled ribbon of constant width: a
//! quadratic Bézier curve is sampled into a polyline, the polyline and a
//! half-width are tessellated into per-segment quads with mitered
//! interior joints, and the resulting fragments are merged into one
//! vertex/index mesh for a rendering collaborator to draw.

pub mod curve;
pub mod geom;
pub mod mesh;

pub use geom::GeometryError;
pub use geom::Point2D;
