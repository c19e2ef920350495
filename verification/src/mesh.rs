//! Mesh data: vertices with position, normal and texture coordinates in
//! 16.16 fixed point, plus an optional triangle-list index buffer.
//!
//! The three internal meshes are generated procedurally, with their exact
//! vertex tables stated as spec sequences.

use vstd::prelude::*;

verus! {

/// One vertex: position, normal, texture coordinates, all fixed point.
#[derive(Clone, Copy, PartialEq, Eq, Structural, Debug)]
pub struct Vertex {
    pub px: i64,
    pub py: i64,
    pub pz: i64,
    pub nx: i64,
    pub ny: i64,
    pub nz: i64,
    pub u: i64,
    pub v: i64,
}

impl Vertex {
    pub fn new(x: i64, y: i64, z: i64, normal_x: i64, normal_y: i64, normal_z: i64, u: i64, v: i64)
        -> (r: Vertex)
        ensures
            r == (Vertex { px: x, py: y, pz: z, nx: normal_x, ny: normal_y, nz: normal_z, u, v }),
    {
        Vertex { px: x, py: y, pz: z, nx: normal_x, ny: normal_y, nz: normal_z, u, v }
    }
}

/// The value of a mesh: its vertex table and optional index buffer.
#[verifier::ext_equal]
pub struct MeshView {
    pub vertices: Seq<Vertex>,
    pub indices: Option<Seq<u32>>,
}

/// A mesh: immutable vertex data and an optional triangle-list index
/// buffer. Created by the resource cache; shared through handles.
#[derive(Debug)]
pub struct Mesh {
    pub vertices: Vec<Vertex>,
    pub indices: Option<Vec<u32>>,
}

impl View for Mesh {
    type V = MeshView;

    open spec fn view(&self) -> MeshView {
        MeshView {
            vertices: self.vertices@,
            indices: match self.indices {
                Some(ind) => Some(ind@),
                None => None,
            },
        }
    }
}

/// An element-wise copy of a vector of plain values.
pub fn copy_vec<T: Copy>(v: &Vec<T>) -> (r: Vec<T>)
    ensures
        r@ == v@,
{
    let mut r: Vec<T> = Vec::new();
    let n = v.len();
    let mut i: usize = 0;
    while i < n
        invariant
            n == v@.len(),
            0 <= i <= n,
            r@ =~= v@.subrange(0, i as int),
        decreases n - i,
    {
        r.push(v[i]);
        i = i + 1;
    }
    proof {
        assert(r@ =~= v@);
    }
    r
}

impl Mesh {
    /// A new instance holding the same data.
    pub fn duplicate(&self) -> (r: Mesh)
        ensures
            r@ == self@,
    {
        let indices: Option<Vec<u32>> = match &self.indices {
            Some(ind) => Some(copy_vec(ind)),
            None => None,
        };
        Mesh { vertices: copy_vec(&self.vertices), indices }
    }
}

/// The internal triangle: three vertices, no index buffer.
pub open spec fn triangle_vertices() -> Seq<Vertex> {
    seq![
        Vertex { px: -32768i64, py: -32768i64, pz: 0i64, nx: 0i64, ny: 0i64, nz: 65536i64, u: 0i64, v: 0i64 },
        Vertex { px: 32768i64, py: -32768i64, pz: 0i64, nx: 0i64, ny: 0i64, nz: 65536i64, u: 65536i64, v: 0i64 },
        Vertex { px: 0i64, py: 32768i64, pz: 0i64, nx: 0i64, ny: 0i64, nz: 65536i64, u: 65536i64, v: 65536i64 },
    ]
}

/// The internal square: four corners, indexed as two triangles.
pub open spec fn square_vertices() -> Seq<Vertex> {
    seq![
        Vertex { px: 32768i64, py: 32768i64, pz: 0i64, nx: 0i64, ny: 0i64, nz: 65536i64, u: 65536i64, v: 65536i64 },
        Vertex { px: 32768i64, py: -32768i64, pz: 0i64, nx: 0i64, ny: 0i64, nz: 65536i64, u: 65536i64, v: 0i64 },
        Vertex { px: -32768i64, py: -32768i64, pz: 0i64, nx: 0i64, ny: 0i64, nz: 65536i64, u: 0i64, v: 0i64 },
        Vertex { px: -32768i64, py: 32768i64, pz: 0i64, nx: 0i64, ny: 0i64, nz: 65536i64, u: 0i64, v: 65536i64 },
    ]
}

/// The internal cube: six faces of two triangles each, no index buffer.
pub open spec fn cube_vertices() -> Seq<Vertex> {
    seq![
        Vertex { px: -32768i64, py: -32768i64, pz: -32768i64, nx: 0i64, ny: 0i64, nz: -65536i64, u: 0i64, v: 0i64 },
        Vertex { px: 32768i64, py: -32768i64, pz: -32768i64, nx: 0i64, ny: 0i64, nz: -65536i64, u: 65536i64, v: 0i64 },
        Vertex { px: 32768i64, py: 32768i64, pz: -32768i64, nx: 0i64, ny: 0i64, nz: -65536i64, u: 65536i64, v: 65536i64 },
        Vertex { px: 32768i64, py: 32768i64, pz: -32768i64, nx: 0i64, ny: 0i64, nz: -65536i64, u: 65536i64, v: 65536i64 },
        Vertex { px: -32768i64, py: 32768i64, pz: -32768i64, nx: 0i64, ny: 0i64, nz: -65536i64, u: 0i64, v: 65536i64 },
        Vertex { px: -32768i64, py: -32768i64, pz: -32768i64, nx: 0i64, ny: 0i64, nz: -65536i64, u: 0i64, v: 0i64 },
        Vertex { px: -32768i64, py: -32768i64, pz: 32768i64, nx: 0i64, ny: 0i64, nz: 65536i64, u: 0i64, v: 0i64 },
        Vertex { px: 32768i64, py: -32768i64, pz: 32768i64, nx: 0i64, ny: 0i64, nz: 65536i64, u: 65536i64, v: 0i64 },
        Vertex { px: 32768i64, py: 32768i64, pz: 32768i64, nx: 0i64, ny: 0i64, nz: 65536i64, u: 65536i64, v: 65536i64 },
        Vertex { px: 32768i64, py: 32768i64, pz: 32768i64, nx: 0i64, ny: 0i64, nz: 65536i64, u: 65536i64, v: 65536i64 },
        Vertex { px: -32768i64, py: 32768i64, pz: 32768i64, nx: 0i64, ny: 0i64, nz: 65536i64, u: 0i64, v: 65536i64 },
        Vertex { px: -32768i64, py: -32768i64, pz: 32768i64, nx: 0i64, ny: 0i64, nz: 65536i64, u: 0i64, v: 0i64 },
        Vertex { px: -32768i64, py: 32768i64, pz: 32768i64, nx: -65536i64, ny: 0i64, nz: 0i64, u: 65536i64, v: 0i64 },
        Vertex { px: -32768i64, py: 32768i64, pz: -32768i64, nx: -65536i64, ny: 0i64, nz: 0i64, u: 65536i64, v: 65536i64 },
        Vertex { px: -32768i64, py: -32768i64, pz: -32768i64, nx: -65536i64, ny: 0i64, nz: 0i64, u: 0i64, v: 65536i64 },
        Vertex { px: -32768i64, py: -32768i64, pz: -32768i64, nx: -65536i64, ny: 0i64, nz: 0i64, u: 0i64, v: 65536i64 },
        Vertex { px: -32768i64, py: -32768i64, pz: 32768i64, nx: -65536i64, ny: 0i64, nz: 0i64, u: 0i64, v: 0i64 },
        Vertex { px: -32768i64, py: 32768i64, pz: 32768i64, nx: -65536i64, ny: 0i64, nz: 0i64, u: 65536i64, v: 0i64 },
        Vertex { px: 32768i64, py: 32768i64, pz: 32768i64, nx: 65536i64, ny: 0i64, nz: 0i64, u: 65536i64, v: 0i64 },
        Vertex { px: 32768i64, py: 32768i64, pz: -32768i64, nx: 65536i64, ny: 0i64, nz: 0i64, u: 65536i64, v: 65536i64 },
        Vertex { px: 32768i64, py: -32768i64, pz: -32768i64, nx: 65536i64, ny: 0i64, nz: 0i64, u: 0i64, v: 65536i64 },
        Vertex { px: 32768i64, py: -32768i64, pz: -32768i64, nx: 65536i64, ny: 0i64, nz: 0i64, u: 0i64, v: 65536i64 },
        Vertex { px: 32768i64, py: -32768i64, pz: 32768i64, nx: 65536i64, ny: 0i64, nz: 0i64, u: 0i64, v: 0i64 },
        Vertex { px: 32768i64, py: 32768i64, pz: 32768i64, nx: 65536i64, ny: 0i64, nz: 0i64, u: 65536i64, v: 0i64 },
        Vertex { px: -32768i64, py: -32768i64, pz: -32768i64, nx: 0i64, ny: -65536i64, nz: 0i64, u: 0i64, v: 65536i64 },
        Vertex { px: 32768i64, py: -32768i64, pz: -32768i64, nx: 0i64, ny: -65536i64, nz: 0i64, u: 65536i64, v: 65536i64 },
        Vertex { px: 32768i64, py: -32768i64, pz: 32768i64, nx: 0i64, ny: -65536i64, nz: 0i64, u: 65536i64, v: 0i64 },
        Vertex { px: 32768i64, py: -32768i64, pz: 32768i64, nx: 0i64, ny: -65536i64, nz: 0i64, u: 65536i64, v: 0i64 },
        Vertex { px: -32768i64, py: -32768i64, pz: 32768i64, nx: 0i64, ny: -65536i64, nz: 0i64, u: 0i64, v: 0i64 },
        Vertex { px: -32768i64, py: -32768i64, pz: -32768i64, nx: 0i64, ny: -65536i64, nz: 0i64, u: 0i64, v: 65536i64 },
        Vertex { px: -32768i64, py: 32768i64, pz: -32768i64, nx: 0i64, ny: 65536i64, nz: 0i64, u: 0i64, v: 65536i64 },
        Vertex { px: 32768i64, py: 32768i64, pz: -32768i64, nx: 0i64, ny: 65536i64, nz: 0i64, u: 65536i64, v: 65536i64 },
        Vertex { px: 32768i64, py: 32768i64, pz: 32768i64, nx: 0i64, ny: 65536i64, nz: 0i64, u: 65536i64, v: 0i64 },
        Vertex { px: 32768i64, py: 32768i64, pz: 32768i64, nx: 0i64, ny: 65536i64, nz: 0i64, u: 65536i64, v: 0i64 },
        Vertex { px: -32768i64, py: 32768i64, pz: 32768i64, nx: 0i64, ny: 65536i64, nz: 0i64, u: 0i64, v: 0i64 },
        Vertex { px: -32768i64, py: 32768i64, pz: -32768i64, nx: 0i64, ny: 65536i64, nz: 0i64, u: 0i64, v: 65536i64 },
    ]
}

/// Generate the internal triangle mesh.
pub fn gen_triangle() -> (m: Mesh)
    ensures
        m@.vertices == triangle_vertices(),
        m@.vertices.len() == 3,
        m@.indices is None,
{
    let mut v: Vec<Vertex> = Vec::new();
    v.push(Vertex::new(-32768, -32768, 0, 0, 0, 65536, 0, 0));
    v.push(Vertex::new(32768, -32768, 0, 0, 0, 65536, 65536, 0));
    v.push(Vertex::new(0, 32768, 0, 0, 0, 65536, 65536, 65536));
    let indices: Option<Vec<u32>> = None;
    let m = Mesh { vertices: v, indices };
    proof {
        assert(m@.vertices =~= triangle_vertices());
    }
    m
}

/// Generate the internal square mesh: four vertices and six indices.
pub fn gen_square() -> (m: Mesh)
    ensures
        m@.vertices == square_vertices(),
        m@.vertices.len() == 4,
        m@.indices == Some(seq![0, 1, 3, 1, 2, 3u32]),
{
    let mut v: Vec<Vertex> = Vec::new();
    v.push(Vertex::new(32768, 32768, 0, 0, 0, 65536, 65536, 65536));
    v.push(Vertex::new(32768, -32768, 0, 0, 0, 65536, 65536, 0));
    v.push(Vertex::new(-32768, -32768, 0, 0, 0, 65536, 0, 0));
    v.push(Vertex::new(-32768, 32768, 0, 0, 0, 65536, 0, 65536));
    let mut ind: Vec<u32> = Vec::new();
    ind.push(0);
    ind.push(1);
    ind.push(3);
    ind.push(1);
    ind.push(2);
    ind.push(3);
    let indices: Option<Vec<u32>> = Some(ind);
    let m = Mesh { vertices: v, indices };
    proof {
        assert(m@.vertices =~= square_vertices());
        assert(m@.indices->0 =~= seq![0, 1, 3, 1, 2, 3u32]);
    }
    m
}

/// Generate the internal cube mesh: 36 vertices, no index buffer.
pub fn gen_cube() -> (m: Mesh)
    ensures
        m@.vertices == cube_vertices(),
        m@.vertices.len() == 36,
        m@.indices is None,
{
    let mut v: Vec<Vertex> = Vec::new();
    v.push(Vertex::new(-32768, -32768, -32768, 0, 0, -65536, 0, 0));
    v.push(Vertex::new(32768, -32768, -32768, 0, 0, -65536, 65536, 0));
    v.push(Vertex::new(32768, 32768, -32768, 0, 0, -65536, 65536, 65536));
    v.push(Vertex::new(32768, 32768, -32768, 0, 0, -65536, 65536, 65536));
    v.push(Vertex::new(-32768, 32768, -32768, 0, 0, -65536, 0, 65536));
    v.push(Vertex::new(-32768, -32768, -32768, 0, 0, -65536, 0, 0));
    v.push(Vertex::new(-32768, -32768, 32768, 0, 0, 65536, 0, 0));
    v.push(Vertex::new(32768, -32768, 32768, 0, 0, 65536, 65536, 0));
    v.push(Vertex::new(32768, 32768, 32768, 0, 0, 65536, 65536, 65536));
    v.push(Vertex::new(32768, 32768, 32768, 0, 0, 65536, 65536, 65536));
    v.push(Vertex::new(-32768, 32768, 32768, 0, 0, 65536, 0, 65536));
    v.push(Vertex::new(-32768, -32768, 32768, 0, 0, 65536, 0, 0));
    v.push(Vertex::new(-32768, 32768, 32768, -65536, 0, 0, 65536, 0));
    v.push(Vertex::new(-32768, 32768, -32768, -65536, 0, 0, 65536, 65536));
    v.push(Vertex::new(-32768, -32768, -32768, -65536, 0, 0, 0, 65536));
    v.push(Vertex::new(-32768, -32768, -32768, -65536, 0, 0, 0, 65536));
    v.push(Vertex::new(-32768, -32768, 32768, -65536, 0, 0, 0, 0));
    v.push(Vertex::new(-32768, 32768, 32768, -65536, 0, 0, 65536, 0));
    v.push(Vertex::new(32768, 32768, 32768, 65536, 0, 0, 65536, 0));
    v.push(Vertex::new(32768, 32768, -32768, 65536, 0, 0, 65536, 65536));
    v.push(Vertex::new(32768, -32768, -32768, 65536, 0, 0, 0, 65536));
    v.push(Vertex::new(32768, -32768, -32768, 65536, 0, 0, 0, 65536));
    v.push(Vertex::new(32768, -32768, 32768, 65536, 0, 0, 0, 0));
    v.push(Vertex::new(32768, 32768, 32768, 65536, 0, 0, 65536, 0));
    v.push(Vertex::new(-32768, -32768, -32768, 0, -65536, 0, 0, 65536));
    v.push(Vertex::new(32768, -32768, -32768, 0, -65536, 0, 65536, 65536));
    v.push(Vertex::new(32768, -32768, 32768, 0, -65536, 0, 65536, 0));
    v.push(Vertex::new(32768, -32768, 32768, 0, -65536, 0, 65536, 0));
    v.push(Vertex::new(-32768, -32768, 32768, 0, -65536, 0, 0, 0));
    v.push(Vertex::new(-32768, -32768, -32768, 0, -65536, 0, 0, 65536));
    v.push(Vertex::new(-32768, 32768, -32768, 0, 65536, 0, 0, 65536));
    v.push(Vertex::new(32768, 32768, -32768, 0, 65536, 0, 65536, 65536));
    v.push(Vertex::new(32768, 32768, 32768, 0, 65536, 0, 65536, 0));
    v.push(Vertex::new(32768, 32768, 32768, 0, 65536, 0, 65536, 0));
    v.push(Vertex::new(-32768, 32768, 32768, 0, 65536, 0, 0, 0));
    v.push(Vertex::new(-32768, 32768, -32768, 0, 65536, 0, 0, 65536));
    let indices: Option<Vec<u32>> = None;
    let m = Mesh { vertices: v, indices };
    proof {
        assert(m@.vertices =~= cube_vertices());
    }
    m
}

} // verus!
