use vstd::prelude::*;
use crate::error::MeshError;
use crate::faces::{decode, decode_faces, triangle_in_range, Triangle};
use crate::vertices::{group_vertices, triples};

verus! {

/// The vertices and triangles of a mesh, ready to hand to a geometry engine.
pub struct MeshData<T> {
    /// Each vertex as its three coordinates.
    pub vertices: Vec<(T, T, T)>,
    /// Each triangle as three 0-based indices into `vertices`.
    pub triangles: Vec<Triangle>,
}

impl<T> MeshData<T> {
    /// Every triangle names only vertices that exist.
    pub open spec fn well_formed(&self) -> bool {
        forall|i: int|
            0 <= i < self.triangles@.len() ==> #[trigger] triangle_in_range(
                self.triangles@[i],
                self.vertices@.len(),
            )
    }
}

/// The mesh spelled by a flat run of vertex coordinates and a face stream:
/// its vertices and triangles, or the first fault in the buffers. The face
/// stream is read as `decode` reads it: records of fewer than three vertices
/// are skipped unread.
pub open spec fn mesh_of<T>(vertex_data: Seq<T>, face_data: Seq<u32>) -> Result<
    (Seq<(T, T, T)>, Seq<Triangle>),
    MeshError,
> {
    if vertex_data.len() % 3 != 0 {
        Err(MeshError::VertexDataLength)
    } else {
        match decode(face_data, vertex_data.len() / 3) {
            Ok(t) => Ok((triples(vertex_data), t)),
            Err(e) => Err(e),
        }
    }
}

/// Builds the mesh data from a flat run of vertex coordinates and a face stream.
///
/// Fails when the number of coordinates is not a multiple of three, or when a
/// polygon of three or more vertices runs past the end of the face stream or
/// names a vertex that does not exist.
pub fn build_mesh_data<T: Copy>(vertex_data: &[T], face_data: &[u32]) -> (r: Result<
    MeshData<T>,
    MeshError,
>)
    ensures
        match r {
            Ok(m) => mesh_of(vertex_data@, face_data@) == Ok::<
                (Seq<(T, T, T)>, Seq<Triangle>),
                MeshError,
            >((m.vertices@, m.triangles@)),
            Err(e) => mesh_of(vertex_data@, face_data@) == Err::<
                (Seq<(T, T, T)>, Seq<Triangle>),
                MeshError,
            >(e),
        },
        r matches Ok(m) ==> m.well_formed(),
{
    let vertices = match group_vertices(vertex_data) {
        Some(v) => v,
        None => return Err(MeshError::VertexDataLength),
    };
    let triangles = match decode_faces(face_data, vertices.len()) {
        Ok(t) => t,
        Err(e) => return Err(e),
    };
    Ok(MeshData { vertices, triangles })
}

} // verus!
