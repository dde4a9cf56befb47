//! Orthogonal ("elbow") connector routing for a diagramming canvas.
//!
//! Given two points in integer canvas units, the router produces the
//! intermediate corner points of a path made only of horizontal and
//! vertical segments, with clean perpendicular entry and exit stubs at
//! both endpoints.

pub mod elbow;
pub mod mathtext;
