use vstd::prelude::*;

verus! {

/// Why a pair of vertex and face buffers does not describe a mesh.
#[derive(Debug, Clone, Copy, PartialEq, Eq, Structural)]
pub enum MeshError {
    /// The number of vertex coordinates is not a multiple of three.
    VertexDataLength,
    /// The record of a polygon of three or more vertices, whose count stands at
    /// `at`, runs past the end of the face data.
    TruncatedFace { at: usize },
    /// The vertex reference at `at`, in a polygon of three or more vertices, is
    /// zero or names no vertex.
    IndexOutOfRange { at: usize },
}

} // verus!
