use vstd::prelude::*;

verus! {

/// The vertices spelled by a flat run of coordinates: the `i`-th vertex is made
/// of the coordinates at `3 * i`, `3 * i + 1` and `3 * i + 2`. Trailing
/// coordinates that do not fill a vertex are not part of any.
pub open spec fn triples<T>(s: Seq<T>) -> Seq<(T, T, T)> {
    Seq::new(s.len() / 3, |i: int| (s[3 * i], s[3 * i + 1], s[3 * i + 2]))
}

/// Groups a flat run of coordinates into vertices of three coordinates each.
/// Returns `None` when the number of coordinates is not a multiple of three.
pub fn group_vertices<T: Copy>(data: &[T]) -> (r: Option<Vec<(T, T, T)>>)
    ensures
        r is None <==> data@.len() % 3 != 0,
        r matches Some(v) ==> v@ == triples(data@),
{
    let len = data.len();
    if len % 3 != 0 {
        return None;
    }
    let mut out: Vec<(T, T, T)> = Vec::new();
    let mut i: usize = 0;
    while i < len
        invariant
            len == data@.len(),
            len % 3 == 0,
            i <= len,
            i == 3 * out@.len(),
            out@ == triples(data@).take(out@.len() as int),
        decreases len - i,
    {
        let v = (data[i], data[i + 1], data[i + 2]);
        proof {
            assert(v == triples(data@)[out@.len() as int]);
        }
        out.push(v);
        i = i + 3;
        proof {
            assert(out@ =~= triples(data@).take(out@.len() as int));
        }
    }
    proof {
        assert(out@ =~= triples(data@));
    }
    Some(out)
}

} // verus!
