//! Immutable vertex and index data: a fixed authored mesh of ten vertices
//! forming a heart-like silhouette, drawn as seven triangles.
//!
//! Coordinates and vertex colors are integers in millionths of a scene unit,
//! so the authored constants are exact; the GPU layer divides them out to
//! floating point when it uploads the buffers.

use vstd::prelude::*;

verus! {

/// One full scene unit, in millionths: positions in the authored mesh lie in
/// [-POS_ONE, POS_ONE], vertex color channels in [0, POS_ONE].
pub const POS_ONE: i32 = 1_000_000;

/// A mesh vertex: a scene-space position and a normalized color, both in
/// millionths of a unit.
#[derive(Clone, Copy, PartialEq, Eq, Structural, Debug)]
pub struct Vertex {
    pub px: i32,
    pub py: i32,
    pub pz: i32,
    pub cr: i32,
    pub cg: i32,
    pub cb: i32,
}

/// The ten authored vertices: two roughly diamond-shaped halves joined by a
/// narrow waist, over a base triangle. All share one purple color.
pub open spec fn heart_vertices() -> Seq<Vertex> {
    seq![
        vert(0, -600_000i32, 0),
        vert(0, 200_000, 0),
        vert(-650_000i32, 200_000, 0),
        vert(650_000, 200_000, 0),
        vert(-120_000i32, 410_000, 0),
        vert(120_000, 410_000, 0),
        vert(-610_000i32, 402_500, 0),
        vert(610_000, 402_500, 0),
        vert(-375_000i32, 575_000, 0),
        vert(375_000, 575_000, 0),
    ]
}

/// The authored index list: seven triangles, three indices each.
pub open spec fn heart_indices() -> Seq<u16> {
    seq![1u16, 4, 8, 8, 6, 2, 1, 8, 2, 3, 7, 9, 9, 5, 1, 9, 1, 3, 2, 0, 3]
}

/// A vertex at the given position with the shared purple color.
pub open spec fn vert(px: i32, py: i32, pz: i32) -> Vertex {
    Vertex { px, py, pz, cr: 500_000, cg: 0, cb: 500_000 }
}

/// The vertex and index data, owned here exclusively and never mutated after
/// construction.
pub struct GeometryStore {
    pub vertices: Vec<Vertex>,
    pub indices: Vec<u16>,
}

impl GeometryStore {
    /// Every index points at an existing vertex, and the index count fits
    /// the draw call's 32-bit argument.
    pub open spec fn wf(self) -> bool {
        &&& forall|i: int|
            0 <= i < self.indices@.len() ==> (self.indices@[i] as int) < self.vertices@.len()
        &&& self.indices@.len() <= u32::MAX
    }

    /// Build the fixed authored mesh. There is no error path: the data is
    /// compiled in, not loaded.
    pub fn new() -> (s: GeometryStore)
        ensures
            s.vertices@ == heart_vertices(),
            s.indices@ == heart_indices(),
            s.wf(),
    {
        let mut vertices: Vec<Vertex> = Vec::new();
        vertices.push(exec_vert(0, -600_000i32, 0));
        vertices.push(exec_vert(0, 200_000, 0));
        vertices.push(exec_vert(-650_000i32, 200_000, 0));
        vertices.push(exec_vert(650_000, 200_000, 0));
        vertices.push(exec_vert(-120_000i32, 410_000, 0));
        vertices.push(exec_vert(120_000, 410_000, 0));
        vertices.push(exec_vert(-610_000i32, 402_500, 0));
        vertices.push(exec_vert(610_000, 402_500, 0));
        vertices.push(exec_vert(-375_000i32, 575_000, 0));
        vertices.push(exec_vert(375_000, 575_000, 0));

        let mut indices: Vec<u16> = Vec::new();
        let triangles: [u16; 21] = [1, 4, 8, 8, 6, 2, 1, 8, 2, 3, 7, 9, 9, 5, 1, 9, 1, 3, 2, 0, 3];
        let mut i: usize = 0;
        while i < 21
            invariant
                i <= 21,
                triangles@ == heart_indices(),
                indices@ == heart_indices().take(i as int),
            decreases 21 - i,
        {
            indices.push(triangles[i]);
            i = i + 1;
        }

        proof {
            assert(vertices@ =~= heart_vertices());
            assert(indices@ =~= heart_indices());
            lemma_heart_mesh_wf();
        }
        GeometryStore { vertices, indices }
    }

    /// The ordered vertex sequence.
    pub fn vertices(&self) -> (v: &Vec<Vertex>)
        ensures
            v@ == self.vertices@,
    {
        &self.vertices
    }

    /// The ordered index sequence.
    pub fn indices(&self) -> (ix: &Vec<u16>)
        ensures
            ix@ == self.indices@,
    {
        &self.indices
    }

    /// How many indices an indexed draw of this mesh consumes.
    pub fn index_count(&self) -> (n: u32)
        requires
            self.wf(),
        ensures
            n == self.indices@.len(),
    {
        self.indices.len() as u32
    }
}

/// The authored mesh is internally consistent: every index names one of the
/// ten vertices.
pub proof fn lemma_heart_mesh_wf()
    ensures
        forall|i: int|
            0 <= i < heart_indices().len() ==> (#[trigger] heart_indices()[i] as int)
                < heart_vertices().len(),
{
    assert forall|i: int| 0 <= i < heart_indices().len() implies (#[trigger] heart_indices()[i]
        as int) < heart_vertices().len() by {
        assert(heart_vertices().len() == 10);
        assert(heart_indices().len() == 21);
        assert(heart_indices()[i] < 10);
    }
}

/// The executable twin of `vert`.
fn exec_vert(px: i32, py: i32, pz: i32) -> (v: Vertex)
    ensures
        v == vert(px, py, pz),
{
    Vertex { px, py, pz, cr: 500_000, cg: 0, cb: 500_000 }
}

} // verus!
