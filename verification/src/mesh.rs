//! The cube mesh: six quad faces of four vertices each, and the index list
//! that cuts every face into two triangles.

use vstd::prelude::*;

verus! {

/// Number of faces of the cube.
pub const FACE_COUNT: usize = 6;

/// Number of vertices stored per face.
pub const CORNERS_PER_FACE: usize = 4;

/// Number of indices that draw one face (two triangles).
pub const INDICES_PER_FACE: usize = 6;

/// Number of vertices in the vertex buffer.
pub const VERTEX_COUNT: usize = 24;

/// Number of entries in the index buffer.
pub const INDEX_COUNT: usize = 36;

/// Number of triangles that the index buffer describes.
pub const TRIANGLE_COUNT: usize = 12;

/// Name under which the shaders read a vertex position.
pub const POSITION_ATTRIBUTE: &'static str = "a_Pos";

/// Name under which the shaders read a texture coordinate.
pub const TEX_COORD_ATTRIBUTE: &'static str = "a_TexCoord";

/// One vertex of the cube: a corner position and the texture coordinate
/// that the face it belongs to gives that corner.
#[allow(non_snake_case)]
#[derive(Clone, Copy, Debug, PartialEq, Eq)]
pub struct Vertex {
    pub a_Pos: [i8; 3],
    pub a_TexCoord: [u8; 2],
}

impl Vertex {
    pub fn new(pos: [i8; 3], tc: [u8; 2]) -> (v: Vertex)
        ensures
            v == (Vertex { a_Pos: pos, a_TexCoord: tc }),
    {
        Vertex { a_Pos: pos, a_TexCoord: tc }
    }

    /// The position as a triple of integers.
    pub open spec fn position(self) -> (int, int, int) {
        (self.a_Pos[0] as int, self.a_Pos[1] as int, self.a_Pos[2] as int)
    }

    /// The texture coordinate as a pair of integers.
    pub open spec fn tex_coord(self) -> (int, int) {
        (self.a_TexCoord[0] as int, self.a_TexCoord[1] as int)
    }

    /// True when every coordinate of the position is `1` or `-1`.
    pub open spec fn is_cube_corner(self) -> bool {
        let (x, y, z) = self.position();
        (x == 1 || x == -1) && (y == 1 || y == -1) && (z == 1 || z == -1)
    }
}

/// The faces of the cube, in the order in which the buffers store them.
#[derive(Clone, Copy, Debug, PartialEq, Eq, Structural)]
pub enum Face {
    Top,
    Bottom,
    Right,
    Left,
    Front,
    Back,
}

impl Face {
    /// Place of the face in the buffers: its vertices start at four times
    /// this number, its indices at six times this number.
    pub open spec fn ordinal(self) -> int {
        match self {
            Face::Top => 0,
            Face::Bottom => 1,
            Face::Right => 2,
            Face::Left => 3,
            Face::Front => 4,
            Face::Back => 5,
        }
    }

    /// The face stored at place `n`, for `n` below six.
    pub open spec fn at(n: int) -> Face {
        if n == 0 {
            Face::Top
        } else if n == 1 {
            Face::Bottom
        } else if n == 2 {
            Face::Right
        } else if n == 3 {
            Face::Left
        } else if n == 4 {
            Face::Front
        } else {
            Face::Back
        }
    }

    /// The outward unit normal of the face.
    pub open spec fn normal(self) -> (int, int, int) {
        match self {
            Face::Top => (0, 0, 1),
            Face::Bottom => (0, 0, -1),
            Face::Right => (1, 0, 0),
            Face::Left => (-1, 0, 0),
            Face::Front => (0, 1, 0),
            Face::Back => (0, -1, 0),
        }
    }

    /// True when `v` lies in the plane of this face, at distance one from
    /// the centre of the cube along the face's normal.
    pub open spec fn holds(self, v: Vertex) -> bool {
        let (x, y, z) = v.position();
        let (nx, ny, nz) = self.normal();
        x * nx + y * ny + z * nz == 1
    }

    pub fn from_ordinal(n: usize) -> (face: Option<Face>)
        ensures
            n < 6 ==> face == Some(Face::at(n as int)),
            n >= 6 ==> face is None,
    {
        if n == 0 {
            Some(Face::Top)
        } else if n == 1 {
            Some(Face::Bottom)
        } else if n == 2 {
            Some(Face::Right)
        } else if n == 3 {
            Some(Face::Left)
        } else if n == 4 {
            Some(Face::Front)
        } else if n == 5 {
            Some(Face::Back)
        } else {
            None
        }
    }

    pub fn index(&self) -> (n: usize)
        ensures
            n == self.ordinal(),
            Face::at(n as int) == *self,
    {
        match self {
            Face::Top => 0,
            Face::Bottom => 1,
            Face::Right => 2,
            Face::Left => 3,
            Face::Front => 4,
            Face::Back => 5,
        }
    }

    pub fn outward_normal(&self) -> (n: [i8; 3])
        ensures
            (n[0] as int, n[1] as int, n[2] as int) == self.normal(),
    {
        match self {
            Face::Top => [0, 0, 1],
            Face::Bottom => [0, 0, -1],
            Face::Right => [1, 0, 0],
            Face::Left => [-1, 0, 0],
            Face::Front => [0, 1, 0],
            Face::Back => [0, -1, 0],
        }
    }

    /// First vertex of the face in the vertex buffer.
    pub fn first_vertex(&self) -> (n: u8)
        ensures
            n == 4 * self.ordinal(),
    {
        match self {
            Face::Top => 0,
            Face::Bottom => 4,
            Face::Right => 8,
            Face::Left => 12,
            Face::Front => 16,
            Face::Back => 20,
        }
    }
}

/// Texture coordinate of the corner stored at place `corner` of a face: the
/// corners of the unit square, walked counter-clockwise from the origin.
pub open spec fn corner_tex_coord(corner: int) -> (int, int) {
    if corner == 0 {
        (0, 0)
    } else if corner == 1 {
        (1, 0)
    } else if corner == 2 {
        (1, 1)
    } else {
        (0, 1)
    }
}

/// The vertex buffer's contents.
pub open spec fn vertex_table() -> Seq<Vertex> {
    seq![
        // top (0, 0, 1)
        Vertex { a_Pos: [-1i8, -1i8, 1i8], a_TexCoord: [0u8, 0u8] },
        Vertex { a_Pos: [1i8, -1i8, 1i8], a_TexCoord: [1u8, 0u8] },
        Vertex { a_Pos: [1i8, 1i8, 1i8], a_TexCoord: [1u8, 1u8] },
        Vertex { a_Pos: [-1i8, 1i8, 1i8], a_TexCoord: [0u8, 1u8] },
        // bottom (0, 0, -1)
        Vertex { a_Pos: [1i8, 1i8, -1i8], a_TexCoord: [0u8, 0u8] },
        Vertex { a_Pos: [-1i8, 1i8, -1i8], a_TexCoord: [1u8, 0u8] },
        Vertex { a_Pos: [-1i8, -1i8, -1i8], a_TexCoord: [1u8, 1u8] },
        Vertex { a_Pos: [1i8, -1i8, -1i8], a_TexCoord: [0u8, 1u8] },
        // right (1, 0, 0)
        Vertex { a_Pos: [1i8, -1i8, -1i8], a_TexCoord: [0u8, 0u8] },
        Vertex { a_Pos: [1i8, 1i8, -1i8], a_TexCoord: [1u8, 0u8] },
        Vertex { a_Pos: [1i8, 1i8, 1i8], a_TexCoord: [1u8, 1u8] },
        Vertex { a_Pos: [1i8, -1i8, 1i8], a_TexCoord: [0u8, 1u8] },
        // left (-1, 0, 0)
        Vertex { a_Pos: [-1i8, 1i8, 1i8], a_TexCoord: [0u8, 0u8] },
        Vertex { a_Pos: [-1i8, -1i8, 1i8], a_TexCoord: [1u8, 0u8] },
        Vertex { a_Pos: [-1i8, -1i8, -1i8], a_TexCoord: [1u8, 1u8] },
        Vertex { a_Pos: [-1i8, 1i8, -1i8], a_TexCoord: [0u8, 1u8] },
        // front (0, 1, 0)
        Vertex { a_Pos: [-1i8, 1i8, -1i8], a_TexCoord: [0u8, 0u8] },
        Vertex { a_Pos: [1i8, 1i8, -1i8], a_TexCoord: [1u8, 0u8] },
        Vertex { a_Pos: [1i8, 1i8, 1i8], a_TexCoord: [1u8, 1u8] },
        Vertex { a_Pos: [-1i8, 1i8, 1i8], a_TexCoord: [0u8, 1u8] },
        // back (0, -1, 0)
        Vertex { a_Pos: [1i8, -1i8, 1i8], a_TexCoord: [0u8, 0u8] },
        Vertex { a_Pos: [-1i8, -1i8, 1i8], a_TexCoord: [1u8, 0u8] },
        Vertex { a_Pos: [-1i8, -1i8, -1i8], a_TexCoord: [1u8, 1u8] },
        Vertex { a_Pos: [1i8, -1i8, -1i8], a_TexCoord: [0u8, 1u8] },
    ]
}

/// The index buffer's contents: six entries per face, in the order of
/// `Face`. The left face closes its second triangle through vertex 16, the
/// first vertex of the front face, and so never draws vertex 15.
pub open spec fn index_table() -> Seq<u8> {
    seq![
        0u8, 1u8, 2u8, 2u8, 3u8, 0u8, // top
        4u8, 5u8, 6u8, 6u8, 7u8, 4u8, // bottom
        8u8, 9u8, 10u8, 10u8, 11u8, 8u8, // right
        12u8, 13u8, 14u8, 14u8, 16u8, 12u8, // left
        16u8, 17u8, 18u8, 18u8, 19u8, 16u8, // front
        20u8, 21u8, 22u8, 22u8, 23u8, 20u8, // back
    ]
}

/// The six indices that draw the quad whose first vertex is `base` as two
/// triangles sharing the diagonal from the first corner to the third.
pub open spec fn quad_indices(base: int) -> Seq<int> {
    seq![base, base + 1, base + 2, base + 2, base + 3, base]
}

/// Place within a face's six indices of the entry that closes the second
/// triangle through the face's fourth corner.
pub open spec fn fourth_corner_slot() -> int {
    4
}

/// The vertices of the cube, face by face.
pub fn cube_vertices() -> (vertices: Vec<Vertex>)
    ensures
        vertices@ == vertex_table(),
        vertices@.len() == VERTEX_COUNT,
{
    vec![
        // top (0, 0, 1)
        Vertex::new([-1, -1, 1], [0, 0]),
        Vertex::new([1, -1, 1], [1, 0]),
        Vertex::new([1, 1, 1], [1, 1]),
        Vertex::new([-1, 1, 1], [0, 1]),
        // bottom (0, 0, -1)
        Vertex::new([1, 1, -1], [0, 0]),
        Vertex::new([-1, 1, -1], [1, 0]),
        Vertex::new([-1, -1, -1], [1, 1]),
        Vertex::new([1, -1, -1], [0, 1]),
        // right (1, 0, 0)
        Vertex::new([1, -1, -1], [0, 0]),
        Vertex::new([1, 1, -1], [1, 0]),
        Vertex::new([1, 1, 1], [1, 1]),
        Vertex::new([1, -1, 1], [0, 1]),
        // left (-1, 0, 0)
        Vertex::new([-1, 1, 1], [0, 0]),
        Vertex::new([-1, -1, 1], [1, 0]),
        Vertex::new([-1, -1, -1], [1, 1]),
        Vertex::new([-1, 1, -1], [0, 1]),
        // front (0, 1, 0)
        Vertex::new([-1, 1, -1], [0, 0]),
        Vertex::new([1, 1, -1], [1, 0]),
        Vertex::new([1, 1, 1], [1, 1]),
        Vertex::new([-1, 1, 1], [0, 1]),
        // back (0, -1, 0)
        Vertex::new([1, -1, 1], [0, 0]),
        Vertex::new([-1, -1, 1], [1, 0]),
        Vertex::new([-1, -1, -1], [1, 1]),
        Vertex::new([1, -1, -1], [0, 1]),
    ]
}

/// The index list of the cube: twelve triangles, two per face.
pub fn cube_indices() -> (indices: Vec<u8>)
    ensures
        indices@ == index_table(),
        indices@.len() == INDEX_COUNT,
        indices@.len() == 3 * TRIANGLE_COUNT,
{
    vec![
        0u8, 1, 2, 2, 3, 0, // top
        4, 5, 6, 6, 7, 4, // bottom
        8, 9, 10, 10, 11, 8, // right
        12, 13, 14, 14, 16, 12, // left
        16, 17, 18, 18, 19, 16, // front
        20, 21, 22, 22, 23, 20, // back
    ]
}

/// Entry `slot` of the six indices that draw `face`.
pub open spec fn drawn_index(face: Face, slot: int) -> int {
    index_table()[INDICES_PER_FACE * face.ordinal() + slot] as int
}

/// True when some entry of the index buffer names `vertex`.
pub open spec fn is_drawn(vertex: int) -> bool {
    exists|j: int| 0 <= j < index_table().len() && #[trigger] index_table()[j] == vertex
}

/// Triangle `t` of the index buffer, as its three vertex numbers.
pub open spec fn triangle(t: int) -> (int, int, int) {
    (index_table()[3 * t] as int, index_table()[3 * t + 1] as int, index_table()[3 * t + 2] as int)
}

/// The face that stores vertex number `vertex`.
pub open spec fn face_of_vertex(vertex: int) -> Face {
    Face::at(vertex / CORNERS_PER_FACE as int)
}

/// Every vertex is a corner of the cube, lies in the plane of the face that
/// stores it, and carries the texture coordinate of its place in that face.
pub proof fn lemma_vertices_match_faces()
    ensures
        vertex_table().len() == FACE_COUNT * CORNERS_PER_FACE,
        forall|i: int|
            0 <= i < vertex_table().len() ==> {
                let v = #[trigger] vertex_table()[i];
                &&& v.is_cube_corner()
                &&& face_of_vertex(i).holds(v)
                &&& v.tex_coord() == corner_tex_coord(i % CORNERS_PER_FACE as int)
            },
{
    assert forall|i: int| 0 <= i < vertex_table().len() implies {
        let v = #[trigger] vertex_table()[i];
        &&& v.is_cube_corner()
        &&& face_of_vertex(i).holds(v)
        &&& v.tex_coord() == corner_tex_coord(i % CORNERS_PER_FACE as int)
    } by {
        let v = vertex_table()[i];
        let face = i / 4;
        let corner = i % 4;
        assert(i == 4 * face + corner);
        assert(0 <= face < 6 && 0 <= corner < 4);
        assert(v.is_cube_corner());
        let (x, y, z) = v.position();
        let (nx, ny, nz) = face_of_vertex(i).normal();
        assert(x * nx + y * ny + z * nz == 1) by {
            if face == 0 || face == 1 {
                assert(nx == 0 && ny == 0 && z == nz);
            } else if face == 2 || face == 3 {
                assert(ny == 0 && nz == 0 && x == nx);
            } else {
                assert(nx == 0 && nz == 0 && y == ny);
            }
        }
        assert(v.tex_coord() == corner_tex_coord(corner));
    }
}

/// Every entry of the index buffer names a vertex of the vertex buffer.
pub proof fn lemma_indices_in_range()
    ensures
        index_table().len() == FACE_COUNT * INDICES_PER_FACE,
        forall|j: int|
            0 <= j < index_table().len() ==> 0 <= #[trigger] index_table()[j] < vertex_table().len(),
{
}

/// Every face but the left one is drawn as the quad over its own four
/// vertices. The left face follows the same pattern in five of its six
/// entries; the entry for its fourth corner names vertex 16 instead of 15.
pub proof fn lemma_face_windings()
    ensures
        forall|face: Face, slot: int|
            0 <= slot < INDICES_PER_FACE && !(face == Face::Left && slot == fourth_corner_slot())
                ==> #[trigger] drawn_index(face, slot) == quad_indices(
                CORNERS_PER_FACE * face.ordinal(),
            )[slot],
        drawn_index(Face::Left, fourth_corner_slot()) == 16,
        quad_indices(CORNERS_PER_FACE * Face::Left.ordinal())[fourth_corner_slot()] == 15,
{
}

/// The index buffer names every vertex of the vertex buffer except vertex
/// 15, the fourth corner of the left face: 23 of the 24 vertices are drawn.
pub proof fn lemma_drawn_vertices()
    ensures
        forall|v: int| 0 <= v < vertex_table().len() ==> (#[trigger] is_drawn(v) <==> v != 15),
{
    let t = index_table();
    assert forall|j: int| 0 <= j < t.len() implies #[trigger] t[j] != 15 by {}
    assert forall|v: int| 0 <= v < vertex_table().len() && v != 15 implies #[trigger] is_drawn(v) by {
        let face = v / 4;
        let corner = v % 4;
        // The first corner of a face opens its six entries, the second and
        // third follow, and the fourth stands in the fifth entry. Vertex 16
        // also stands in place of vertex 15.
        let j = if corner == 3 {
            6 * face + 4
        } else {
            6 * face + corner
        };
        assert(0 <= j < t.len());
        assert(t[j] == v);
    }
}

/// No triangle is degenerate, and every triangle but the second one of the
/// left face takes its three vertices from a single face.
pub proof fn lemma_triangles()
    ensures
        forall|t: int|
            0 <= t < TRIANGLE_COUNT ==> {
                let (a, b, c) = #[trigger] triangle(t);
                &&& a != b && b != c && a != c
                &&& t != 7 ==> face_of_vertex(a) == face_of_vertex(b) && face_of_vertex(b)
                    == face_of_vertex(c) && face_of_vertex(a) == Face::at(t / 2)
            },
        triangle(7) == (14int, 16int, 12int),
        face_of_vertex(14) == Face::Left,
        face_of_vertex(16) == Face::Front,
{
}

} // verus!
