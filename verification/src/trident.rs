//! The mesh of the trident: three arrows, one along each axis, and a sphere at
//! the origin where they meet.
//!
//! A mesh is held here by what is exact about it. Each vertex is named by its
//! place on the trident, from which a renderer works out its position, normal
//! and texture coordinate; beside the vertices stand their colors and the
//! triangle list.

use vstd::prelude::*;

pub mod arrow;

pub use arrow::{BevyTridentArrow, BevyTridentCone};

verus! {

/// The number of sectors of the sphere at the origin.
pub const ORIGIN_SECTORS: usize = 8;

/// The number of stacks of the sphere at the origin.
pub const ORIGIN_STACKS: usize = 8;

/// A color of four channels, each from 0 (none) to 255 (full).
#[derive(Debug, Clone, Copy, PartialEq, Eq, Structural)]
pub struct Rgba {
    pub red: u8,
    pub green: u8,
    pub blue: u8,
    pub alpha: u8,
}

/// The place of one vertex on the trident.
///
/// `dir` is the axis of the arrow the vertex belongs to (0, 1, 2 for X, Y, Z)
/// and `step` counts along a ring, from 0 to the arrow's subdivision count:
/// the last vertex of a ring lies on the first, to close the texture seam.
#[derive(Debug, Clone, Copy, PartialEq, Eq, Structural)]
pub enum Vertex {
    /// The tip of an arrow.
    Apex { dir: usize },
    /// The twin of the tip, which carries the opposite normal.
    Back { dir: usize },
    /// On the base ring of the cone.
    Cone { dir: usize, step: usize },
    /// On the ring where the cone meets the shaft, at the shaft's radius.
    Converge { dir: usize, step: usize },
    /// On the ring at the foot of the shaft.
    Cylinder { dir: usize, step: usize },
    /// On the sphere at the origin: the vertex of that number of the sphere.
    Origin { index: usize },
}

/// A triangle mesh: one color for each vertex, and three indices for each
/// triangle.
#[derive(Debug)]
pub struct TridentMesh {
    pub vertices: Vec<Vertex>,
    pub colors: Vec<Rgba>,
    pub indices: Vec<u32>,
}

impl TridentMesh {
    /// A mesh is well formed when every vertex has a color, the indices come
    /// in threes, and each index names a vertex of the mesh.
    pub open spec fn wf(&self) -> bool {
        &&& self.colors@.len() == self.vertices@.len()
        &&& self.indices@.len() % 3 == 0
        &&& forall|k: int| 0 <= k < self.indices@.len() ==> (#[trigger] self.indices@[k]) < self.vertices@.len()
    }
}

/// The color of every vertex of the arrow along axis `dir`: red for X, green
/// for Y, blue for Z, each opaque.
pub open spec fn axis_color(dir: int) -> Rgba {
    Rgba {
        red: if dir == 0 { 255u8 } else { 0u8 },
        green: if dir == 1 { 255u8 } else { 0u8 },
        blue: if dir == 2 { 255u8 } else { 0u8 },
        alpha: 255u8,
    }
}

/// The color of every vertex of the sphere at the origin: opaque white.
pub open spec fn origin_color() -> Rgba {
    Rgba { red: 255u8, green: 255u8, blue: 255u8, alpha: 255u8 }
}

/// The quarter of the texture that belongs to the arrow along `dir`, as a
/// column and a row.
pub open spec fn spec_uv_stride(dir: int) -> (u8, u8) {
    (if dir == 1 { 1u8 } else { 0u8 }, if dir == 2 { 1u8 } else { 0u8 })
}

/// The number of vertices of an arrow with `d` subdivisions: the tip, its
/// twin, and three rings of `d + 1` vertices.
pub open spec fn axis_vertex_count(d: nat) -> nat {
    3 * (d + 1) + 2
}

/// The number of indices of an arrow with `d` subdivisions: for each
/// segment two triangles at the tip and four in the body.
pub open spec fn axis_index_count(d: nat) -> nat {
    6 * d + 12 * d
}

/// The index, within its arrow, of the vertex at `step` on the cone's ring.
pub open spec fn cone_index(d: nat, step: int) -> int {
    2 + step
}

/// The index, within its arrow, of the vertex at `step` on the converge ring.
pub open spec fn converge_index(d: nat, step: int) -> int {
    2 + (d + 1) + step
}

/// The index, within its arrow, of the vertex at `step` on the cylinder ring.
pub open spec fn cylinder_index(d: nat, step: int) -> int {
    2 + 2 * (d + 1) + step
}

/// The vertex that stands at index `j` of the arrow along `dir`.
pub open spec fn axis_vertex(dir: usize, d: nat, j: int) -> Vertex {
    if j == 0 {
        Vertex::Apex { dir }
    } else if j == 1 {
        Vertex::Back { dir }
    } else if j < converge_index(d, 0) {
        Vertex::Cone { dir, step: (j - cone_index(d, 0)) as usize }
    } else if j < cylinder_index(d, 0) {
        Vertex::Converge { dir, step: (j - converge_index(d, 0)) as usize }
    } else {
        Vertex::Cylinder { dir, step: (j - cylinder_index(d, 0)) as usize }
    }
}

/// The vertices of the arrow along `dir`, in buffer order.
pub open spec fn axis_vertices(dir: usize, d: nat) -> Seq<Vertex> {
    Seq::new(axis_vertex_count(d), |j: int| axis_vertex(dir, d, j))
}

/// The colors of the arrow along `dir`: its one color, once for each vertex.
pub open spec fn axis_colors(dir: usize, d: nat) -> Seq<Rgba> {
    Seq::new(axis_vertex_count(d), |j: int| axis_color(dir as int))
}

/// The corners of triangle `t` of an arrow, as indices within the arrow.
///
/// The first `2 * d` triangles close the tip: for each segment of the cone's
/// ring, one triangle from the tip and one from its twin. The other `4 * d`
/// are the body: for each segment two triangles between the cone's ring and
/// the converge ring, then two between the converge ring and the cylinder
/// ring.
pub open spec fn axis_triangle(d: nat, t: int) -> (int, int, int) {
    if t < 2 * d {
        let seg = t / 2;
        if t % 2 == 0 {
            (0, cone_index(d, seg), cone_index(d, seg + 1))
        } else {
            (1, cone_index(d, seg), cone_index(d, seg + 1))
        }
    } else {
        let seg = (t - 2 * d) / 4;
        let part = (t - 2 * d) % 4;
        if part == 0 {
            (cone_index(d, seg), converge_index(d, seg + 1), cone_index(d, seg + 1))
        } else if part == 1 {
            (converge_index(d, seg), converge_index(d, seg + 1), cone_index(d, seg))
        } else if part == 2 {
            (converge_index(d, seg), cylinder_index(d, seg + 1), converge_index(d, seg + 1))
        } else {
            (converge_index(d, seg), cylinder_index(d, seg), cylinder_index(d, seg + 1))
        }
    }
}

/// Corner `c` (0, 1 or 2) of a triangle.
pub open spec fn corner(triangle: (int, int, int), c: int) -> int {
    if c == 0 {
        triangle.0
    } else if c == 1 {
        triangle.1
    } else {
        triangle.2
    }
}

/// Entry `k` of an arrow's index list, as an index within the arrow.
#[verifier::opaque]
pub open spec fn axis_index(d: nat, k: int) -> int {
    corner(axis_triangle(d, k / 3), k % 3)
}

/// The index list of an arrow with `d` subdivisions, each entry counted
/// within the arrow: the vertex at entry 0 of the arrow's own buffer is 0.
pub open spec fn axis_indices(d: nat) -> Seq<u32> {
    Seq::new(axis_index_count(d), |k: int| axis_index(d, k) as u32)
}

/// Every entry of an arrow's index list names a vertex of that arrow.
pub proof fn lemma_axis_index_in_range(d: nat, k: int)
    requires
        0 <= k < axis_index_count(d),
    ensures
        0 <= axis_index(d, k) < axis_vertex_count(d),
{
    reveal(axis_index);
    let t = k / 3;
    assert(0 <= t < 6 * d);
    if t < 2 * d {
        let seg = t / 2;
        assert(0 <= seg < d);
    } else {
        let seg = (t - 2 * d) / 4;
        assert(0 <= seg < d);
    }
}

/// The six entries that segment `seg` adds to the tip of an arrow.
proof fn lemma_tip_entries(d: nat, seg: int)
    requires
        0 <= seg < d,
    ensures
        axis_index(d, 6 * seg) == 0,
        axis_index(d, 6 * seg + 1) == cone_index(d, seg),
        axis_index(d, 6 * seg + 2) == cone_index(d, seg + 1),
        axis_index(d, 6 * seg + 3) == 1,
        axis_index(d, 6 * seg + 4) == cone_index(d, seg),
        axis_index(d, 6 * seg + 5) == cone_index(d, seg + 1),
{
    reveal(axis_index);
    assert((6 * seg) / 3 == 2 * seg && (6 * seg) % 3 == 0);
    assert((6 * seg + 1) / 3 == 2 * seg && (6 * seg + 1) % 3 == 1);
    assert((6 * seg + 2) / 3 == 2 * seg && (6 * seg + 2) % 3 == 2);
    assert((6 * seg + 3) / 3 == 2 * seg + 1 && (6 * seg + 3) % 3 == 0);
    assert((6 * seg + 4) / 3 == 2 * seg + 1 && (6 * seg + 4) % 3 == 1);
    assert((6 * seg + 5) / 3 == 2 * seg + 1 && (6 * seg + 5) % 3 == 2);
    assert((2 * seg) / 2 == seg && (2 * seg) % 2 == 0);
    assert((2 * seg + 1) / 2 == seg && (2 * seg + 1) % 2 == 1);
}

/// The twelve entries that segment `seg` adds to the body of an arrow.
proof fn lemma_body_entries(d: nat, seg: int)
    requires
        0 <= seg < d,
    ensures
        axis_index(d, 6 * d + 12 * seg) == cone_index(d, seg),
        axis_index(d, 6 * d + 12 * seg + 1) == converge_index(d, seg + 1),
        axis_index(d, 6 * d + 12 * seg + 2) == cone_index(d, seg + 1),
        axis_index(d, 6 * d + 12 * seg + 3) == converge_index(d, seg),
        axis_index(d, 6 * d + 12 * seg + 4) == converge_index(d, seg + 1),
        axis_index(d, 6 * d + 12 * seg + 5) == cone_index(d, seg),
        axis_index(d, 6 * d + 12 * seg + 6) == converge_index(d, seg),
        axis_index(d, 6 * d + 12 * seg + 7) == cylinder_index(d, seg + 1),
        axis_index(d, 6 * d + 12 * seg + 8) == converge_index(d, seg + 1),
        axis_index(d, 6 * d + 12 * seg + 9) == converge_index(d, seg),
        axis_index(d, 6 * d + 12 * seg + 10) == cylinder_index(d, seg),
        axis_index(d, 6 * d + 12 * seg + 11) == cylinder_index(d, seg + 1),
{
    reveal(axis_index);
    let base = 6 * d + 12 * seg;
    let t = 2 * d + 4 * seg;
    assert(base / 3 == t && base % 3 == 0);
    assert((base + 1) / 3 == t && (base + 1) % 3 == 1);
    assert((base + 2) / 3 == t && (base + 2) % 3 == 2);
    assert((base + 3) / 3 == t + 1 && (base + 3) % 3 == 0);
    assert((base + 4) / 3 == t + 1 && (base + 4) % 3 == 1);
    assert((base + 5) / 3 == t + 1 && (base + 5) % 3 == 2);
    assert((base + 6) / 3 == t + 2 && (base + 6) % 3 == 0);
    assert((base + 7) / 3 == t + 2 && (base + 7) % 3 == 1);
    assert((base + 8) / 3 == t + 2 && (base + 8) % 3 == 2);
    assert((base + 9) / 3 == t + 3 && (base + 9) % 3 == 0);
    assert((base + 10) / 3 == t + 3 && (base + 10) % 3 == 1);
    assert((base + 11) / 3 == t + 3 && (base + 11) % 3 == 2);
    assert((4 * seg) / 4 == seg && (4 * seg) % 4 == 0);
    assert((4 * seg + 1) / 4 == seg && (4 * seg + 1) % 4 == 1);
    assert((4 * seg + 2) / 4 == seg && (4 * seg + 2) % 4 == 2);
    assert((4 * seg + 3) / 4 == seg && (4 * seg + 3) % 4 == 3);
}

/// The rings stand where the triangles look for them: on each ring, the
/// vertex at `step` has the index that the ring's index function gives, and
/// the tip and its twin come before the rings.
pub proof fn lemma_ring_vertices(dir: usize, d: nat, step: int)
    requires
        0 <= step <= d,
        axis_vertex_count(d) <= usize::MAX,
    ensures
        axis_vertices(dir, d)[0] == (Vertex::Apex { dir }),
        axis_vertices(dir, d)[1] == (Vertex::Back { dir }),
        axis_vertices(dir, d)[cone_index(d, step)] == (Vertex::Cone { dir, step: step as usize }),
        axis_vertices(dir, d)[converge_index(d, step)] == (Vertex::Converge {
            dir,
            step: step as usize,
        }),
        axis_vertices(dir, d)[cylinder_index(d, step)] == (Vertex::Cylinder {
            dir,
            step: step as usize,
        }),
{
}

/// No triangle of an arrow is degenerate: its three corners are three
/// different vertices.
pub proof fn lemma_axis_triangle_is_proper(d: nat, t: int)
    requires
        0 <= t < 6 * d,
    ensures
        axis_triangle(d, t).0 != axis_triangle(d, t).1,
        axis_triangle(d, t).1 != axis_triangle(d, t).2,
        axis_triangle(d, t).2 != axis_triangle(d, t).0,
{
    if t < 2 * d {
        assert(0 <= t / 2 < d);
    } else {
        assert(0 <= (t - 2 * d) / 4 < d);
    }
}

/// What the renderer's sphere primitive hands over for the sphere at the
/// origin: how many vertices it has, and its triangle list, counted within
/// the sphere.
#[derive(Debug)]
pub struct SpherePrimitive {
    pub vertex_count: usize,
    pub indices: Vec<u32>,
}

impl SpherePrimitive {
    /// A sphere primitive is well formed when its indices come in threes and
    /// each names one of its vertices.
    pub open spec fn wf(&self) -> bool {
        &&& self.indices@.len() % 3 == 0
        &&& indices_below(self.indices@, self.vertex_count as int)
    }
}

/// Every entry of an index list is below `bound`.
pub open spec fn indices_below(indices: Seq<u32>, bound: int) -> bool {
    forall|k: int| 0 <= k < indices.len() ==> (#[trigger] indices[k]) < bound
}

/// An index list with `by` added to every entry.
pub open spec fn shifted(indices: Seq<u32>, by: int) -> Seq<u32> {
    Seq::new(indices.len(), |k: int| (indices[k] + by) as u32)
}

/// The vertices of a sphere at the origin that has `count` of them.
pub open spec fn origin_vertices(count: nat) -> Seq<Vertex> {
    Seq::new(count, |j: int| Vertex::Origin { index: j as usize })
}

/// The colors of a sphere at the origin that has `count` vertices.
pub open spec fn origin_colors(count: nat) -> Seq<Rgba> {
    Seq::new(count, |j: int| origin_color())
}

/// Adds `by` to every entry of an index list, in place.
fn offset_indices(indices: &mut Vec<u32>, by: u32)
    requires
        forall|k: int| 0 <= k < old(indices)@.len() ==> (#[trigger] old(indices)@[k]) + by <= u32::MAX,
    ensures
        final(indices)@ == shifted(old(indices)@, by as int),
{
    let n: usize = indices.len();
    let mut k: usize = 0;
    while k < n
        invariant
            k <= n,
            n == indices@.len(),
            n == old(indices)@.len(),
            forall|i: int| 0 <= i < n ==> (#[trigger] old(indices)@[i]) + by <= u32::MAX,
            forall|i: int| 0 <= i < k ==> #[trigger] indices@[i] == old(indices)@[i] + by,
            forall|i: int| k <= i < n ==> #[trigger] indices@[i] == old(indices)@[i],
        decreases n - k,
    {
        let moved: u32 = indices[k] + by;
        indices.set(k, moved);
        k += 1;
    }
    assert(indices@ =~= shifted(old(indices)@, by as int));
}

/// The three arrows of a trident, in the order X, Y, Z.
#[derive(Debug, Clone, Copy)]
pub struct BevyTridentAxis {
    pub axises: [BevyTridentArrow; 3],
}

impl Default for BevyTridentAxis {
    fn default() -> (trident: Self)
        ensures
            forall|dir: int|
                0 <= dir < 3 ==> #[trigger] trident.subdivisions(dir)
                    == arrow::DEFAULT_SUBDIVISIONS,
            trident.wf(),
            trident.uniform(),
    {
        let arrow = BevyTridentArrow::default();
        BevyTridentAxis { axises: [arrow, arrow, arrow] }
    }
}

impl BevyTridentAxis {
    /// The subdivision count of the arrow along `dir`.
    pub open spec fn subdivisions(&self, dir: int) -> nat {
        self.axises[dir].cone.subdivisions as nat
    }

    /// A trident is well formed when its three arrows are.
    pub open spec fn wf(&self) -> bool {
        forall|dir: int| 0 <= dir < 3 ==> (#[trigger] self.axises[dir]).wf()
    }

    /// A trident is uniform when its three arrows have one subdivision count.
    pub open spec fn uniform(&self) -> bool {
        self.subdivisions(0) == self.subdivisions(1) && self.subdivisions(1)
            == self.subdivisions(2)
    }

    /// The vertex at index `j` of the arrow along `dir`.
    fn vertex_at(dir: usize, d: usize, j: usize) -> (vertex: Vertex)
        requires
            j < axis_vertex_count(d as nat) <= u32::MAX,
        ensures
            vertex == axis_vertex(dir, d as nat, j as int),
    {
        if j == 0 {
            Vertex::Apex { dir }
        } else if j == 1 {
            Vertex::Back { dir }
        } else if j < 2 + (d + 1) {
            Vertex::Cone { dir, step: j - 2 }
        } else if j < 2 + 2 * (d + 1) {
            Vertex::Converge { dir, step: j - 2 - (d + 1) }
        } else {
            Vertex::Cylinder { dir, step: j - 2 - 2 * (d + 1) }
        }
    }

    /// The color of the arrow along `dir`.
    fn color_of(dir: usize) -> (color: Rgba)
        requires
            dir < 3,
        ensures
            color == axis_color(dir as int),
    {
        if dir == 0 {
            Rgba { red: 255, green: 0, blue: 0, alpha: 255 }
        } else if dir == 1 {
            Rgba { red: 0, green: 255, blue: 0, alpha: 255 }
        } else {
            Rgba { red: 0, green: 0, blue: 255, alpha: 255 }
        }
    }

    /// The vertices of the arrow along `dir`, in buffer order.
    fn axis_vertex_buffer(dir: usize, d: usize) -> (vertices: Vec<Vertex>)
        requires
            axis_vertex_count(d as nat) <= u32::MAX,
        ensures
            vertices@ == axis_vertices(dir, d as nat),
    {
        let n_vertices: usize = 3 * (d + 1) + 2;
        let mut vertices: Vec<Vertex> = Vec::with_capacity(n_vertices);
        let mut j: usize = 0;
        while j < n_vertices
            invariant
                j <= n_vertices,
                n_vertices == axis_vertex_count(d as nat) <= u32::MAX,
                vertices@.len() == j,
                forall|i: int| 0 <= i < j ==> #[trigger] vertices@[i] == axis_vertex(dir, d as nat, i),
            decreases n_vertices - j,
        {
            vertices.push(Self::vertex_at(dir, d, j));
            j += 1;
        }
        assert(vertices@ =~= axis_vertices(dir, d as nat));
        vertices
    }

    /// The colors of the arrow along `dir`: one for each vertex, all alike.
    fn axis_color_buffer(dir: usize, d: usize) -> (colors: Vec<Rgba>)
        requires
            dir < 3,
            axis_vertex_count(d as nat) <= u32::MAX,
        ensures
            colors@ == axis_colors(dir, d as nat),
    {
        let n_vertices: usize = 3 * (d + 1) + 2;
        let color = Self::color_of(dir);
        let mut colors: Vec<Rgba> = Vec::with_capacity(n_vertices);
        let mut j: usize = 0;
        while j < n_vertices
            invariant
                j <= n_vertices,
                n_vertices == axis_vertex_count(d as nat),
                color == axis_color(dir as int),
                colors@.len() == j,
                forall|i: int| 0 <= i < j ==> #[trigger] colors@[i] == color,
            decreases n_vertices - j,
        {
            colors.push(color);
            j += 1;
        }
        assert(colors@ =~= axis_colors(dir, d as nat));
        colors
    }

    /// The triangles that close the tip of an arrow: for each segment of the
    /// cone's ring, one from the tip and one from its twin.
    fn tip_index_buffer(d: usize) -> (indices: Vec<u32>)
        requires
            axis_vertex_count(d as nat) <= u32::MAX,
        ensures
            indices@.len() == 6 * d,
            forall|k: int| 0 <= k < 6 * d ==> #[trigger] indices@[k] == axis_index(d as nat, k),
    {
        let mut indices: Vec<u32> = Vec::new();
        let mut point: usize = 2;
        while point < d + 2
            invariant
                2 <= point <= d + 2,
                axis_vertex_count(d as nat) <= u32::MAX,
                indices@.len() == 6 * (point - 2),
                forall|k: int| 0 <= k < indices@.len() ==> #[trigger] indices@[k] == axis_index(d as nat, k),
            decreases d + 2 - point,
        {
            let top: usize = 0;
            let bottom: usize = 1;
            let ring_left: usize = point + 1;
            let ring_right: usize = point;
            proof {
                lemma_tip_entries(d as nat, point - 2);
            }
            indices.push(top as u32);
            indices.push(ring_right as u32);
            indices.push(ring_left as u32);

            indices.push(bottom as u32);
            indices.push(ring_right as u32);
            indices.push(ring_left as u32);
            point += 1;
        }
        indices
    }

    /// Adds the triangles of the body of an arrow behind those of its tip:
    /// for each segment two between the cone's ring and the converge ring,
    /// then two between the converge ring and the cylinder ring.
    fn push_body_indices(d: usize, indices: &mut Vec<u32>)
        requires
            axis_vertex_count(d as nat) <= u32::MAX,
            old(indices)@.len() == 6 * d,
            forall|k: int| 0 <= k < 6 * d ==> #[trigger] old(indices)@[k] == axis_index(d as nat, k),
        ensures
            final(indices)@ == axis_indices(d as nat),
    {
        let mut sub: usize = 0;
        while sub < d
            invariant
                sub <= d,
                axis_vertex_count(d as nat) <= u32::MAX,
                indices@.len() == 6 * d + 12 * sub,
                forall|k: int| 0 <= k < indices@.len() ==> #[trigger] indices@[k] == axis_index(d as nat, k),
            decreases d - sub,
        {
            let i_cone: usize = sub + 2;
            let i_cone_next: usize = i_cone + 1;
            let i_converge: usize = i_cone + (d + 1);
            let i_converge_next: usize = i_converge + 1;
            let i_cylinder: usize = i_cone + 2 * (d + 1);
            let i_cylinder_next: usize = i_cylinder + 1;
            proof {
                lemma_body_entries(d as nat, sub as int);
            }
            indices.push(i_cone as u32);
            indices.push(i_converge_next as u32);
            indices.push(i_cone_next as u32);

            indices.push(i_converge as u32);
            indices.push(i_converge_next as u32);
            indices.push(i_cone as u32);

            indices.push(i_converge as u32);
            indices.push(i_cylinder_next as u32);
            indices.push(i_converge_next as u32);

            indices.push(i_converge as u32);
            indices.push(i_cylinder as u32);
            indices.push(i_cylinder_next as u32);
            sub += 1;
        }
        proof {
            assert forall|k: int| 0 <= k < indices@.len() implies indices@[k] == axis_indices(
                d as nat,
            )[k] by {
                lemma_axis_index_in_range(d as nat, k);
            }
            assert(indices@ =~= axis_indices(d as nat));
        }
    }

    /// The mesh of the arrow along `dir` alone, pointing in the positive
    /// direction: its vertices in buffer order, one flat color for all of
    /// them, and its triangles. The indices count within this arrow; whoever
    /// joins several arrows into one buffer moves them.
    pub fn gen_axis(&self, dir: usize) -> (mesh: TridentMesh)
        requires
            dir < 3,
            axis_vertex_count(self.subdivisions(dir as int)) <= u32::MAX,
        ensures
            mesh.vertices@ == axis_vertices(dir, self.subdivisions(dir as int)),
            mesh.colors@ == axis_colors(dir, self.subdivisions(dir as int)),
            mesh.indices@ == axis_indices(self.subdivisions(dir as int)),
            mesh.vertices@.len() == 3 * (self.subdivisions(dir as int) + 1) + 2,
            mesh.colors@.len() == mesh.vertices@.len(),
            mesh.indices@.len() == 6 * self.subdivisions(dir as int) + 12 * self.subdivisions(
                dir as int,
            ),
            mesh.wf(),
    {
        let d: usize = self.axises[dir].cone.subdivisions;
        let vertices = Self::axis_vertex_buffer(dir, d);
        let colors = Self::axis_color_buffer(dir, d);
        let mut indices = Self::tip_index_buffer(d);
        Self::push_body_indices(d, &mut indices);
        proof {
            assert forall|k: int| 0 <= k < indices@.len() implies (#[trigger] indices@[k])
                < vertices@.len() by {
                lemma_axis_index_in_range(d as nat, k);
            }
        }
        TridentMesh { vertices, colors, indices }
    }

    /// The sphere at the origin as a mesh: one vertex for each vertex of the
    /// primitive, each white, and the primitive's triangles with `shift`
    /// added to every index, so that they count within a buffer that holds
    /// `shift` vertices before the sphere's.
    pub fn gen_origin(shift: usize, sphere: &SpherePrimitive) -> (mesh: TridentMesh)
        requires
            shift <= u32::MAX,
            forall|k: int| 0 <= k < sphere.indices@.len() ==> (#[trigger] sphere.indices@[k]) + shift <= u32::MAX,
        ensures
            mesh.vertices@ == origin_vertices(sphere.vertex_count as nat),
            mesh.colors@ == origin_colors(sphere.vertex_count as nat),
            mesh.indices@ == shifted(sphere.indices@, shift as int),
    {
        let white = Rgba { red: 255, green: 255, blue: 255, alpha: 255 };
        let mut vertices: Vec<Vertex> = Vec::with_capacity(sphere.vertex_count);
        let mut colors: Vec<Rgba> = Vec::with_capacity(sphere.vertex_count);
        let mut j: usize = 0;
        while j < sphere.vertex_count
            invariant
                j <= sphere.vertex_count,
                white == origin_color(),
                vertices@.len() == j,
                colors@.len() == j,
                forall|i: int| 0 <= i < j ==> #[trigger] vertices@[i] == (Vertex::Origin { index: i as usize }),
                forall|i: int| 0 <= i < j ==> #[trigger] colors@[i] == white,
            decreases sphere.vertex_count - j,
        {
            vertices.push(Vertex::Origin { index: j });
            colors.push(white);
            j += 1;
        }

        let by: u32 = shift as u32;
        let n: usize = sphere.indices.len();
        let mut indices: Vec<u32> = Vec::with_capacity(n);
        let mut k: usize = 0;
        while k < n
            invariant
                k <= n,
                n == sphere.indices@.len(),
                by == shift,
                indices@.len() == k,
                forall|i: int| 0 <= i < n ==> (#[trigger] sphere.indices@[i]) + shift <= u32::MAX,
                forall|i: int| 0 <= i < k ==> #[trigger] indices@[i] == sphere.indices@[i] + shift,
            decreases n - k,
        {
            indices.push(sphere.indices[k] + by);
            k += 1;
        }
        assert(vertices@ =~= origin_vertices(sphere.vertex_count as nat));
        assert(colors@ =~= origin_colors(sphere.vertex_count as nat));
        assert(indices@ =~= shifted(sphere.indices@, shift as int));
        TridentMesh { vertices, colors, indices }
    }

    /// The number of vertices of the arrow along `dir`.
    pub open spec fn vertex_count(&self, dir: int) -> nat {
        axis_vertex_count(self.subdivisions(dir))
    }

    /// Where part `part` begins in the joined vertex buffer: the number of
    /// vertices of the parts before it. Parts 0, 1, 2 are the arrows along
    /// X, Y, Z and part 3 is the sphere at the origin; so `vertex_start(3)`
    /// is the number of vertices of the three arrows. This is also what is
    /// added to each index of the part when the parts share one buffer.
    pub open spec fn vertex_start(&self, part: int) -> int {
        (if part > 0 { self.vertex_count(0) as int } else { 0 })
            + (if part > 1 { self.vertex_count(1) as int } else { 0 })
            + (if part > 2 { self.vertex_count(2) as int } else { 0 })
    }

    /// Where part `part` begins in the joined index list.
    pub open spec fn index_start(&self, part: int) -> int {
        (if part > 0 { axis_index_count(self.subdivisions(0)) as int } else { 0 })
            + (if part > 1 { axis_index_count(self.subdivisions(1)) as int } else { 0 })
            + (if part > 2 { axis_index_count(self.subdivisions(2)) as int } else { 0 })
    }

    /// The vertices of the whole trident: the arrows along X, Y and Z, then
    /// a sphere of `sphere_vertices` vertices.
    pub open spec fn mesh_vertices(&self, sphere_vertices: nat) -> Seq<Vertex> {
        axis_vertices(0, self.subdivisions(0)) + axis_vertices(1, self.subdivisions(1))
            + axis_vertices(2, self.subdivisions(2)) + origin_vertices(sphere_vertices)
    }

    /// The colors of the whole trident, in the order of its vertices.
    pub open spec fn mesh_colors(&self, sphere_vertices: nat) -> Seq<Rgba> {
        axis_colors(0, self.subdivisions(0)) + axis_colors(1, self.subdivisions(1))
            + axis_colors(2, self.subdivisions(2)) + origin_colors(sphere_vertices)
    }

    /// The index list of the whole trident: the list of each part, moved by
    /// the number of vertices that stand before the part in the joined
    /// buffer.
    pub open spec fn mesh_indices(&self, sphere_indices: Seq<u32>) -> Seq<u32> {
        shifted(axis_indices(self.subdivisions(0)), self.vertex_start(0))
            + shifted(axis_indices(self.subdivisions(1)), self.vertex_start(1))
            + shifted(axis_indices(self.subdivisions(2)), self.vertex_start(2))
            + shifted(sphere_indices, self.vertex_start(3))
    }

    /// The trident and the sphere's triangles can be joined with every index
    /// held in 32 bits: the number of vertices of the three arrows, and
    /// every index of the sphere moved past them, is within that.
    pub open spec fn fits(&self, sphere_indices: Seq<u32>) -> bool {
        &&& self.vertex_start(3) <= u32::MAX
        &&& forall|k: int| 0 <= k < sphere_indices.len() ==> (#[trigger] sphere_indices[k]) + self.vertex_start(3) <= u32::MAX
    }

    /// The number of vertices of the arrow along `dir`, or nothing where
    /// 32 bits cannot hold it.
    fn axis_vertices_within_u32(&self, dir: usize) -> (count: Option<u64>)
        requires
            dir < 3,
        ensures
            count matches Some(n) ==> n == self.vertex_count(dir as int) && n <= u32::MAX,
            count is None ==> self.vertex_count(dir as int) > u32::MAX,
    {
        let d: usize = self.axises[dir].cone.subdivisions;
        if d > 0x5555_5553 {
            None
        } else {
            Some(3 * (d as u64 + 1) + 2)
        }
    }

    /// Whether this trident and the sphere's triangles fit into one mesh
    /// with indices of 32 bits. Where they do, `mesh` can be called.
    pub fn check_fits(&self, sphere: &SpherePrimitive) -> (ok: bool)
        ensures
            ok == self.fits(sphere.indices@),
    {
        let shift: u64 = match (
            self.axis_vertices_within_u32(0),
            self.axis_vertices_within_u32(1),
            self.axis_vertices_within_u32(2),
        ) {
            (Some(n0), Some(n1), Some(n2)) => n0 + n1 + n2,
            _ => {
                return false;
            },
        };
        assert(shift == self.vertex_start(3));
        if shift > 0xffff_ffff {
            return false;
        }
        let n: usize = sphere.indices.len();
        let mut k: usize = 0;
        while k < n
            invariant
                k <= n,
                n == sphere.indices@.len(),
                shift == self.vertex_start(3),
                shift <= u32::MAX,
                forall|i: int| 0 <= i < k ==> (#[trigger] sphere.indices@[i]) + shift <= u32::MAX,
            decreases n - k,
        {
            if sphere.indices[k] as u64 + shift > 0xffff_ffff {
                return false;
            }
            k += 1;
        }
        true
    }

    /// The quarter of the texture that the arrow along `dir` is drawn from:
    /// a column and a row, each 0 or 1, counted in halves of the texture's
    /// side. X has the first column of the first row, Y the second column
    /// of the first row, Z the first column of the second row.
    pub fn uv_stride(dir: usize) -> (stride: (u8, u8))
        requires
            dir < 3,
        ensures
            stride == spec_uv_stride(dir as int),
    {
        if dir == 0 {
            (0, 0)
        } else if dir == 1 {
            (1, 0)
        } else {
            (0, 1)
        }
    }

    /// The arrow along `dir` with its indices moved by `start`, the number
    /// of vertices that stand before the arrow in the joined buffer.
    fn gen_axis_moved(&self, dir: usize, start: usize) -> (mesh: TridentMesh)
        requires
            dir < 3,
            start == self.vertex_start(dir as int),
            self.vertex_start(3) <= u32::MAX,
        ensures
            mesh.vertices@ == axis_vertices(dir, self.subdivisions(dir as int)),
            mesh.colors@ == axis_colors(dir, self.subdivisions(dir as int)),
            mesh.indices@ == shifted(
                axis_indices(self.subdivisions(dir as int)),
                self.vertex_start(dir as int),
            ),
    {
        let mut mesh = self.gen_axis(dir);
        proof {
            assert forall|k: int| 0 <= k < mesh.indices@.len() implies (#[trigger] mesh.indices@[k])
                + start <= u32::MAX by {
                lemma_axis_index_in_range(self.subdivisions(dir as int), k);
            }
        }
        offset_indices(&mut mesh.indices, start as u32);
        mesh
    }

    /// The mesh of the whole trident: the arrows along X, Y and Z, then the
    /// sphere at the origin, in one vertex buffer and one triangle list.
    ///
    /// The indices of each part are moved by the number of vertices that
    /// stand before the part, so that every triangle keeps to the vertices
    /// of its own part, whatever the subdivision counts of the arrows.
    pub fn mesh(&self, sphere: &SpherePrimitive) -> (mesh: TridentMesh)
        requires
            self.fits(sphere.indices@),
        ensures
            mesh.vertices@ == self.mesh_vertices(sphere.vertex_count as nat),
            mesh.colors@ == self.mesh_colors(sphere.vertex_count as nat),
            mesh.indices@ == self.mesh_indices(sphere.indices@),
            mesh.colors@.len() == mesh.vertices@.len(),
            mesh.vertices@.len() == self.vertex_start(3) + sphere.vertex_count,
            mesh.indices@.len() == self.index_start(3) + sphere.indices@.len(),
            mesh.vertices@.len() >= 15,
            sphere.wf() ==> mesh.wf(),
    {
        let mut x = self.gen_axis_moved(0, 0);
        let mut y = self.gen_axis_moved(1, x.vertices.len());
        let mut z = self.gen_axis_moved(2, x.vertices.len() + y.vertices.len());
        let shift: usize = x.vertices.len() + y.vertices.len() + z.vertices.len();
        let mut o = Self::gen_origin(shift, sphere);

        let mut vertices: Vec<Vertex> = Vec::new();
        vertices.append(&mut x.vertices);
        vertices.append(&mut y.vertices);
        vertices.append(&mut z.vertices);
        vertices.append(&mut o.vertices);
        let mut colors: Vec<Rgba> = Vec::new();
        colors.append(&mut x.colors);
        colors.append(&mut y.colors);
        colors.append(&mut z.colors);
        colors.append(&mut o.colors);
        let mut indices: Vec<u32> = Vec::new();
        indices.append(&mut x.indices);
        indices.append(&mut y.indices);
        indices.append(&mut z.indices);
        indices.append(&mut o.indices);
        assert(vertices@ =~= self.mesh_vertices(sphere.vertex_count as nat));
        assert(colors@ =~= self.mesh_colors(sphere.vertex_count as nat));
        assert(indices@ =~= self.mesh_indices(sphere.indices@));
        proof {
            if sphere.wf() {
                assert forall|k: int| 0 <= k < indices@.len() implies (#[trigger] indices@[k])
                    < vertices@.len() by {
                    lemma_no_cross_axis_leakage(
                        *self,
                        sphere.vertex_count as nat,
                        sphere.indices@,
                        k,
                    );
                }
            }
        }
        TridentMesh { vertices, colors, indices }
    }
}

impl BevyTridentAxis {
    /// The part of the trident that entry `k` of the joined index list
    /// belongs to: 0, 1, 2 for the arrows along X, Y, Z, and 3 for the sphere.
    pub open spec fn index_part(&self, k: int) -> int {
        if k < self.index_start(1) {
            0
        } else if k < self.index_start(2) {
            1
        } else if k < self.index_start(3) {
            2
        } else {
            3
        }
    }

    /// The part of the trident that owns place `v` of the joined vertex
    /// buffer, numbered as for `index_part`.
    pub open spec fn vertex_part(&self, v: int) -> int {
        if v < self.vertex_start(1) {
            0
        } else if v < self.vertex_start(2) {
            1
        } else if v < self.vertex_start(3) {
            2
        } else {
            3
        }
    }
}

/// Each entry of the joined index list, told by the part it belongs to: an
/// entry of an arrow is the arrow's own entry plus the number of vertices
/// before the arrow, and an entry of the sphere is the sphere's own plus the
/// vertex count of the arrows.
pub proof fn lemma_mesh_index(trident: BevyTridentAxis, sphere_indices: Seq<u32>, k: int)
    requires
        trident.fits(sphere_indices),
        0 <= k < trident.mesh_indices(sphere_indices).len(),
    ensures
        trident.mesh_indices(sphere_indices).len() == trident.index_start(3) + sphere_indices.len(),
        trident.index_part(k) < 3 ==> trident.mesh_indices(sphere_indices)[k] == axis_index(
            trident.subdivisions(trident.index_part(k)),
            k - trident.index_start(trident.index_part(k)),
        ) + trident.vertex_start(trident.index_part(k)),
        trident.index_part(k) == 3 ==> trident.mesh_indices(sphere_indices)[k] == sphere_indices[k
            - trident.index_start(3)] + trident.vertex_start(3),
{
    let part = trident.index_part(k);
    if part < 3 {
        lemma_axis_index_in_range(trident.subdivisions(part), k - trident.index_start(part));
    }
}

/// Each place of the joined vertex buffer, told by the part that owns it:
/// a place of an arrow holds the arrow's own vertex, counted from where the
/// arrow begins, and a place of the sphere holds the sphere's.
pub proof fn lemma_mesh_vertex(trident: BevyTridentAxis, sphere_vertices: nat, j: int)
    requires
        0 <= j < trident.mesh_vertices(sphere_vertices).len(),
    ensures
        trident.mesh_vertices(sphere_vertices).len() == trident.vertex_start(3) + sphere_vertices,
        trident.mesh_colors(sphere_vertices).len() == trident.mesh_vertices(sphere_vertices).len(),
        trident.vertex_part(j) < 3 ==> trident.mesh_vertices(sphere_vertices)[j] == axis_vertex(
            trident.vertex_part(j) as usize,
            trident.subdivisions(trident.vertex_part(j)),
            j - trident.vertex_start(trident.vertex_part(j)),
        ) && trident.mesh_colors(sphere_vertices)[j] == axis_color(trident.vertex_part(j)),
        trident.vertex_part(j) == 3 ==> trident.mesh_vertices(sphere_vertices)[j] == (
        Vertex::Origin { index: (j - trident.vertex_start(3)) as usize }) && trident.mesh_colors(
            sphere_vertices,
        )[j] == origin_color(),
{
}

/// No triangle of a trident reaches into another part: every index of an
/// arrow names a vertex of that arrow, every index of the sphere names a
/// vertex of the sphere, and so every index names a vertex of the mesh. This
/// holds whether or not the arrows have one subdivision count.
pub proof fn lemma_no_cross_axis_leakage(
    trident: BevyTridentAxis,
    sphere_vertices: nat,
    sphere_indices: Seq<u32>,
    k: int,
)
    requires
        trident.fits(sphere_indices),
        indices_below(sphere_indices, sphere_vertices as int),
        0 <= k < trident.mesh_indices(sphere_indices).len(),
    ensures
        trident.vertex_part(trident.mesh_indices(sphere_indices)[k] as int) == trident.index_part(k),
        trident.vertex_start(trident.index_part(k)) <= trident.mesh_indices(sphere_indices)[k],
        trident.index_part(k) < 3 ==> trident.mesh_indices(sphere_indices)[k]
            < trident.vertex_start(trident.index_part(k) + 1),
        trident.mesh_indices(sphere_indices)[k] < trident.mesh_vertices(sphere_vertices).len(),
{
    lemma_mesh_index(trident, sphere_indices, k);
    let part = trident.index_part(k);
    if part < 3 {
        lemma_axis_index_in_range(trident.subdivisions(part), k - trident.index_start(part));
    } else {
        assert(sphere_indices[k - trident.index_start(3)] < sphere_vertices);
    }
}

/// Where the three arrows have one subdivision count, each arrow is moved by
/// its axis number times the vertex count of an arrow.
pub proof fn lemma_uniform_offsets(trident: BevyTridentAxis, dir: int)
    requires
        trident.uniform(),
        0 <= dir < 3,
    ensures
        trident.vertex_start(dir) == dir * trident.vertex_count(dir),
{
    let n = trident.vertex_count(dir) as int;
    if dir == 0 {
        assert(0 * n == 0);
    } else if dir == 1 {
        assert(1 * n == n);
    } else {
        assert(2 * n == n + n);
    }
}

/// A trident of three arrows of the default subdivision count, joined with a
/// well-formed sphere, can be meshed, and its mesh is not empty and names
/// only its own vertices: it has the 87 vertices of the arrows and those of
/// the sphere, so more than 87 where the sphere has any.
pub proof fn lemma_default_mesh_well_formed(
    trident: BevyTridentAxis,
    sphere_vertices: nat,
    sphere_indices: Seq<u32>,
)
    requires
        forall|dir: int| 0 <= dir < 3 ==> #[trigger] trident.subdivisions(dir) == arrow::DEFAULT_SUBDIVISIONS,
        indices_below(sphere_indices, sphere_vertices as int),
        sphere_vertices + 87 <= u32::MAX,
    ensures
        trident.fits(sphere_indices),
        trident.mesh_vertices(sphere_vertices).len() == 87 + sphere_vertices,
        sphere_vertices > 0 ==> trident.mesh_vertices(sphere_vertices).len() > 87,
        trident.mesh_colors(sphere_vertices).len() == 87 + sphere_vertices,
        trident.mesh_indices(sphere_indices).len() == 432 + sphere_indices.len(),
        indices_below(
            trident.mesh_indices(sphere_indices),
            trident.mesh_vertices(sphere_vertices).len() as int,
        ),
{
    assert(trident.subdivisions(0) == 8 && trident.subdivisions(1) == 8 && trident.subdivisions(2)
        == 8);
    assert(trident.vertex_start(3) == 87);
    assert forall|k: int| 0 <= k < sphere_indices.len() implies (#[trigger] sphere_indices[k])
        + trident.vertex_start(3) <= u32::MAX by {
        assert(sphere_indices[k] < sphere_vertices);
    }
    assert(trident.fits(sphere_indices));
    assert forall|k: int| 0 <= k < trident.mesh_indices(sphere_indices).len() implies (
    #[trigger] trident.mesh_indices(sphere_indices)[k]) < trident.mesh_vertices(
        sphere_vertices,
    ).len() by {
        lemma_no_cross_axis_leakage(trident, sphere_vertices, sphere_indices, k);
    }
}

} // verus!
