use vstd::prelude::*;

use crate::geom::Point2D;

verus! {

/// A triangle mesh fragment: a list of positions and a list of vertex
/// indices, grouped in triples, each triple naming one triangle.
///
/// Indices are local to the fragment: each one addresses `vertices`.
pub struct RenderData {
    pub vertices: Vec<Point2D>,
    pub indices: Vec<u32>,
}

/// Every index addresses one of the first `n` vertices.
pub open spec fn indices_in_range(ind: Seq<u32>, n: int) -> bool {
    forall|k: int| 0 <= k < ind.len() ==> (#[trigger] ind[k] as int) < n
}

/// The index list of `b`, rebased by the vertex count `off` of the mesh
/// it is appended to.
pub open spec fn shifted_indices(ind: Seq<u32>, off: int) -> Seq<u32> {
    ind.map_values(|j: u32| (j + off) as u32)
}

/// The index list of a merged mesh: `a`'s indices unchanged, then `b`'s
/// indices rebased by the vertex count `off` of `a`.
pub open spec fn merged_indices(a: Seq<u32>, b: Seq<u32>, off: int) -> Seq<u32> {
    a + shifted_indices(b, off)
}

impl RenderData {
    /// A well-formed mesh: the indices come in whole triangles, and every
    /// index is strictly below the vertex count.
    pub open spec fn wf(self) -> bool {
        &&& self.indices@.len() % 3 == 0
        &&& indices_in_range(self.indices@, self.vertices@.len() as int)
    }

    /// The empty mesh.
    pub fn new() -> (r: RenderData)
        ensures
            r.vertices@ == Seq::<Point2D>::empty(),
            r.indices@ == Seq::<u32>::empty(),
            r.wf(),
    {
        RenderData { vertices: Vec::new(), indices: Vec::new() }
    }

    /// Concatenates `other` onto `self`: the vertices of `other` follow the
    /// vertices of `self`, and the indices of `other` are rebased by the
    /// vertex count of `self`, so that each one still names the vertex it
    /// named before the merge.
    pub fn merge(self, other: RenderData) -> (r: RenderData)
        requires
            self.vertices@.len() + other.vertices@.len() <= u32::MAX,
            indices_in_range(other.indices@, other.vertices@.len() as int),
        ensures
            r.vertices@ == self.vertices@ + other.vertices@,
            r.indices@ == merged_indices(self.indices@, other.indices@, self.vertices@.len() as int),
            self.wf() && other.wf() ==> r.wf(),
    {
        let ghost old_self = self;
        let RenderData { mut vertices, mut indices } = self;
        let RenderData { vertices: mut other_vertices, indices: other_indices } = other;
        let offset: u32 = vertices.len() as u32;
        vertices.append(&mut other_vertices);
        let mut k: usize = 0;
        while k < other_indices.len()
            invariant
                k <= other_indices@.len(),
                offset == old_self.vertices@.len(),
                old_self.vertices@.len() + other.vertices@.len() <= u32::MAX,
                indices_in_range(other.indices@, other.vertices@.len() as int),
                other_indices@ == other.indices@,
                indices@ == merged_indices(
                    old_self.indices@,
                    other.indices@.take(k as int),
                    offset as int,
                ),
            decreases other_indices@.len() - k,
        {
            let j = other_indices[k];
            indices.push(j + offset);
            proof {
                assert(other.indices@.take(k + 1 as int)
                    =~= other.indices@.take(k as int).push(other.indices@[k as int]));
                assert(shifted_indices(other.indices@.take(k + 1 as int), offset as int)
                    =~= shifted_indices(other.indices@.take(k as int), offset as int)
                        .push((other.indices@[k as int] + offset) as u32));
                assert(indices@ =~= merged_indices(
                    old_self.indices@,
                    other.indices@.take(k + 1 as int),
                    offset as int,
                ));
            }
            k += 1;
        }
        proof {
            assert(other.indices@.take(other.indices@.len() as int) =~= other.indices@);
            if old_self.wf() && other.wf() {
                assert(indices@.len() % 3 == 0) by {
                    assert(shifted_indices(other.indices@, offset as int).len()
                        == other.indices@.len());
                }
                assert forall|k2: int| 0 <= k2 < indices@.len() implies
                    (#[trigger] indices@[k2] as int) < vertices@.len()
                by {
                    if k2 < old_self.indices@.len() {
                        assert(indices@[k2] == old_self.indices@[k2]);
                    } else {
                        let j2 = other.indices@[k2 - old_self.indices@.len()];
                        assert(indices@[k2] == (j2 + offset) as u32);
                    }
                }
            }
        }
        RenderData { vertices, indices }
    }
}

/// Merging meshes is associative: merging `a` with `b` and then with `c`
/// yields the same vertex list and the same index list as merging `a`
/// with the merge of `b` and `c`.
pub proof fn lemma_merge_assoc(a: RenderData, b: RenderData, c: RenderData)
    requires
        indices_in_range(b.indices@, b.vertices@.len() as int),
        indices_in_range(c.indices@, c.vertices@.len() as int),
        a.vertices@.len() + b.vertices@.len() + c.vertices@.len() <= u32::MAX,
    ensures
        (a.vertices@ + b.vertices@) + c.vertices@ == a.vertices@ + (b.vertices@ + c.vertices@),
        merged_indices(
            merged_indices(a.indices@, b.indices@, a.vertices@.len() as int),
            c.indices@,
            a.vertices@.len() + b.vertices@.len() as int,
        ) == merged_indices(
            a.indices@,
            merged_indices(b.indices@, c.indices@, b.vertices@.len() as int),
            a.vertices@.len() as int,
        ),
{
    let na = a.vertices@.len() as int;
    let nb = b.vertices@.len() as int;
    assert((a.vertices@ + b.vertices@) + c.vertices@
        =~= a.vertices@ + (b.vertices@ + c.vertices@));
    assert(shifted_indices(merged_indices(b.indices@, c.indices@, nb), na)
        =~= shifted_indices(b.indices@, na) + shifted_indices(shifted_indices(c.indices@, nb), na));
    assert(shifted_indices(shifted_indices(c.indices@, nb), na)
        =~= shifted_indices(c.indices@, na + nb));
    assert(merged_indices(
        merged_indices(a.indices@, b.indices@, na),
        c.indices@,
        na + nb,
    ) =~= merged_indices(
        a.indices@,
        merged_indices(b.indices@, c.indices@, nb),
        na,
    ));
}

/// The empty mesh is an identity of merging, on either side: merging a
/// mesh with the empty mesh leaves both of its lists unchanged.
pub proof fn lemma_merge_identity(a: RenderData, e: RenderData)
    requires
        e.vertices@.len() == 0,
        e.indices@.len() == 0,
    ensures
        a.vertices@ + e.vertices@ == a.vertices@,
        merged_indices(a.indices@, e.indices@, a.vertices@.len() as int) == a.indices@,
        e.vertices@ + a.vertices@ == a.vertices@,
        merged_indices(e.indices@, a.indices@, 0) == a.indices@,
{
    assert(a.vertices@ + e.vertices@ =~= a.vertices@);
    assert(merged_indices(a.indices@, e.indices@, a.vertices@.len() as int) =~= a.indices@);
    assert(e.vertices@ + a.vertices@ =~= a.vertices@);
    assert(shifted_indices(a.indices@, 0) =~= a.indices@);
    assert(merged_indices(e.indices@, a.indices@, 0) =~= a.indices@);
}

} // verus!
