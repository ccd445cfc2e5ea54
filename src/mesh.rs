//! Index data of the meshes drawn at startup.
use vstd::prelude::*;

verus! {

/// Vertices of the unit quad: corners counter-clockwise from (-1, -1).
pub const QUAD_VERTEX_COUNT: usize = 4;

/// Every index refers to one of `vertex_count` vertices and the indices form whole triangles.
pub open spec fn is_triangle_list(indices: Seq<u32>, vertex_count: nat) -> bool {
    &&& indices.len() % 3 == 0
    &&& forall|i: int| 0 <= i < indices.len() ==> (indices[i] as nat) < vertex_count
}

/// The quad's two counter-clockwise triangles, (0, 1, 2) and (0, 2, 3).
pub fn quad_indices() -> (r: Vec<u32>)
    ensures
        r@ == seq![0u32, 1, 2, 0, 2, 3],
        is_triangle_list(r@, QUAD_VERTEX_COUNT as nat),
{
    let r = vec![0u32, 1, 2, 0, 2, 3];
    assert(r@ == seq![0u32, 1, 2, 0, 2, 3]);
    r
}

} // verus!
