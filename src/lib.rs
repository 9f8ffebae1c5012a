//! Decoding of flat vertex and face buffers into triangle-mesh data.
//!
//! Vertex data is a flat run of coordinates, three per vertex. Face data is a
//! stream of polygon records: a vertex count followed by that many 1-based
//! vertex references. Each polygon is split into a triangle fan around its
//! first vertex, which is exact for convex polygons.

pub mod error;
pub mod vertices;
pub mod faces;
pub mod mesh;
