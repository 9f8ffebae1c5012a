use vstd::prelude::*;
use crate::error::MeshError;

verus! {

/// A triangle as three 0-based vertex indices.
pub type Triangle = (usize, usize, usize);

/// Whether `idx`, a 1-based vertex reference, names one of `vertex_count` vertices.
pub open spec fn reference_in_range(idx: u32, vertex_count: nat) -> bool {
    1 <= idx && idx <= vertex_count
}

/// Whether each corner of `t` names one of `vertex_count` vertices.
pub open spec fn triangle_in_range(t: Triangle, vertex_count: nat) -> bool {
    t.0 < vertex_count && t.1 < vertex_count && t.2 < vertex_count
}

/// The 0-based index named by the 1-based reference at `pos`.
pub open spec fn vertex_at(s: Seq<u32>, pos: int) -> usize {
    (s[pos] - 1) as usize
}

/// The triangle fan of the polygon whose `count` vertex references start at
/// `first` in `s`: its `k`-th triangle joins the polygon's first vertex with
/// its vertices `k + 1` and `k + 2`. A polygon of fewer than three vertices
/// has no triangle.
pub open spec fn fan(s: Seq<u32>, first: int, count: int) -> Seq<Triangle> {
    if count < 3 {
        Seq::empty()
    } else {
        Seq::new(
            (count - 2) as nat,
            |k: int| (vertex_at(s, first), vertex_at(s, first + k + 1), vertex_at(s, first + k + 2)),
        )
    }
}

/// The first position in `[from, to)` of `s` whose reference names none of
/// `vertex_count` vertices, or `to` where there is none.
pub open spec fn first_bad_reference(s: Seq<u32>, vertex_count: nat, from: int, to: int) -> int
    decreases to - from,
{
    if from >= to {
        to
    } else if !reference_in_range(s[from], vertex_count) {
        from
    } else {
        first_bad_reference(s, vertex_count, from + 1, to)
    }
}

/// The triangles of the polygon records of `s` from position `pos` on, or the
/// first fault met in a polygon of three or more vertices: a record that runs
/// past the end, else a reference that names none of `vertex_count` vertices.
/// A record of fewer than three vertices is skipped unread; where it reaches
/// past the end, the stream ends there.
pub open spec fn decode_from(s: Seq<u32>, vertex_count: nat, pos: int) -> Result<
    Seq<Triangle>,
    MeshError,
>
    decreases s.len() - pos,
{
    if pos < 0 || pos >= s.len() {
        Ok(Seq::empty())
    } else {
        let count = s[pos] as int;
        let end = pos + 1 + count;
        if count < 3 {
            if end >= s.len() {
                Ok(Seq::empty())
            } else {
                decode_from(s, vertex_count, end)
            }
        } else if end > s.len() {
            Err(MeshError::TruncatedFace { at: pos as usize })
        } else if first_bad_reference(s, vertex_count, pos + 1, end) < end {
            Err(
                MeshError::IndexOutOfRange {
                    at: first_bad_reference(s, vertex_count, pos + 1, end) as usize,
                },
            )
        } else {
            match decode_from(s, vertex_count, end) {
                Ok(rest) => Ok(fan(s, pos + 1, count) + rest),
                Err(e) => Err(e),
            }
        }
    }
}

/// The triangles described by the whole face stream `s` over `vertex_count` vertices.
pub open spec fn decode(s: Seq<u32>, vertex_count: nat) -> Result<Seq<Triangle>, MeshError> {
    decode_from(s, vertex_count, 0)
}

/// `r` with `done` put in front of its triangles; an error is kept as it is.
pub open spec fn after(done: Seq<Triangle>, r: Result<Seq<Triangle>, MeshError>) -> Result<
    Seq<Triangle>,
    MeshError,
> {
    match r {
        Ok(t) => Ok(done + t),
        Err(e) => Err(e),
    }
}

/// Decodes a face stream over `vertex_count` vertices into triangles.
///
/// The stream is a sequence of records, each a count followed by that many
/// 1-based vertex references; each polygon becomes a fan of triangles around
/// its first vertex, with 0-based indices. A polygon of fewer than three
/// vertices adds no triangle and its references are not read. A polygon of
/// three or more vertices must fit in the stream, and each of its references
/// must name one of the vertices; the first fault in stream order is returned.
pub fn decode_faces(faces: &[u32], vertex_count: usize) -> (r: Result<Vec<Triangle>, MeshError>)
    ensures
        match r {
            Ok(t) => decode(faces@, vertex_count as nat) == Ok::<Seq<Triangle>, MeshError>(t@),
            Err(e) => decode(faces@, vertex_count as nat) == Err::<Seq<Triangle>, MeshError>(e),
        },
        r matches Ok(t) ==> forall|i: int|
            0 <= i < t@.len() ==> #[trigger] triangle_in_range(t@[i], vertex_count as nat),
{
    let ghost s = faces@;
    let ghost n = vertex_count as nat;
    let len = faces.len();
    let mut out: Vec<Triangle> = Vec::new();
    let mut pos: usize = 0;
    while pos < len
        invariant
            s == faces@,
            n == vertex_count as nat,
            len == s.len(),
            pos <= len,
            decode(s, n) == after(out@, decode_from(s, n, pos as int)),
            forall|i: int| 0 <= i < out@.len() ==> #[trigger] triangle_in_range(out@[i], n),
        decreases len - pos,
    {
        let count = faces[pos] as usize;
        if count < 3 {
            if count >= len - pos {
                pos = len;
            } else {
                pos = pos + 1 + count;
            }
            continue;
        }
        if count > len - pos - 1 {
            return Err(MeshError::TruncatedFace { at: pos });
        }
        let end = pos + 1 + count;
        let mut j = pos + 1;
        while j < end
            invariant
                s == faces@,
                n == vertex_count as nat,
                len == s.len(),
                pos < j <= end <= len,
                end == pos + 1 + s[pos as int],
                s[pos as int] >= 3,
                decode(s, n) == after(out@, decode_from(s, n, pos as int)),
                first_bad_reference(s, n, pos + 1, end as int) == first_bad_reference(
                    s,
                    n,
                    j as int,
                    end as int,
                ),
                forall|q: int| pos + 1 <= q < j ==> #[trigger] reference_in_range(s[q], n),
            decreases end - j,
        {
            let idx = faces[j];
            if idx < 1 || idx as usize > vertex_count {
                return Err(MeshError::IndexOutOfRange { at: j });
            }
            j = j + 1;
        }
        let ghost base = out@;
        let ghost tris = fan(s, pos + 1, count as int);
        if count >= 3 {
            let a = (faces[pos + 1] - 1) as usize;
            let mut k: usize = 0;
            while k + 2 < count
                invariant
                    s == faces@,
                    n == vertex_count as nat,
                    end <= len == s.len(),
                    end == pos + 1 + count,
                    count >= 3,
                    k + 2 <= count,
                    a == vertex_at(s, pos + 1),
                    tris == fan(s, pos + 1, count as int),
                    forall|q: int| pos + 1 <= q < end ==> #[trigger] reference_in_range(s[q], n),
                    out@ == base + tris.take(k as int),
                    forall|i: int| 0 <= i < out@.len() ==> #[trigger] triangle_in_range(out@[i], n),
                decreases count - k,
            {
                assert(reference_in_range(s[pos + 1], n));
                assert(reference_in_range(s[pos + 2 + k], n));
                assert(reference_in_range(s[pos + 3 + k], n));
                let t = (a, (faces[pos + 2 + k] - 1) as usize, (faces[pos + 3 + k] - 1) as usize);
                assert(t == tris[k as int]);
                assert(triangle_in_range(t, n));
                out.push(t);
                k = k + 1;
                assert(out@ =~= base + tris.take(k as int));
            }
            assert(tris.take(k as int) =~= tris);
        } else {
            assert(base + tris =~= base);
        }
        proof {
            match decode_from(s, n, end as int) {
                Ok(rest) => {
                    assert(out@ + rest =~= base + (tris + rest));
                },
                Err(_) => {},
            }
        }
        pos = end;
    }
    assert(out@ + Seq::<Triangle>::empty() =~= out@);
    Ok(out)
}

} // verus!
