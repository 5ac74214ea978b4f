//! Vertex records and the geometry of a unit cube: two triangles per face,
//! six vertices each, in a fixed layout.

use vstd::prelude::*;
use crate::face::{corner_offset, corner_position, Face};

verus! {

/// Index of a layer of the array texture.
pub type TextureLayer = u32;

/// The texture layers of a block's six faces, in the order front, back,
/// top, bottom, left, right.
pub type UVFaces = (
    TextureLayer,
    TextureLayer,
    TextureLayer,
    TextureLayer,
    TextureLayer,
    TextureLayer,
);

/// Number of vertices that one face contributes to a mesh.
pub const VERTICES_PER_FACE: u32 = 6;

/// One vertex of a mesh: a position, a texture address (`u`, `v` and the
/// layer), a normal and an occlusion value, all as whole numbers.
#[derive(Copy, Clone, Debug, PartialEq, Eq, Structural)]
pub struct Vertex {
    pub x: i32,
    pub y: i32,
    pub z: i32,
    pub u: u8,
    pub v: u8,
    pub layer: TextureLayer,
    pub nx: i8,
    pub ny: i8,
    pub nz: i8,
    pub ao: u8,
}

/// The layer that `layers` assigns to `face`.
pub open spec fn layer_of(layers: UVFaces, face: Face) -> TextureLayer {
    match face {
        Face::Front => layers.0,
        Face::Back => layers.1,
        Face::Top => layers.2,
        Face::Bottom => layers.3,
        Face::Left => layers.4,
        Face::Right => layers.5,
    }
}

/// Texture coordinate of a face's corner: the four corners carry `(0, 0)`,
/// `(1, 0)`, `(1, 1)` and `(0, 1)`.
pub open spec fn corner_uv(corner: int) -> (int, int) {
    if corner == 0 {
        (0, 0)
    } else if corner == 1 {
        (1, 0)
    } else if corner == 2 {
        (1, 1)
    } else {
        (0, 1)
    }
}

/// The vertex at corner `corner` of `face` of the cube whose least corner
/// is `(x, y, z)`.
pub open spec fn corner_vertex(
    face: Face,
    corner: int,
    x: int,
    y: int,
    z: int,
    layer: TextureLayer,
    ao: u8,
) -> Vertex {
    let p = corner_position(face, corner);
    let uv = corner_uv(corner);
    let n = face.normal();
    Vertex {
        x: (x + p.0) as i32,
        y: (y + p.1) as i32,
        z: (z + p.2) as i32,
        u: uv.0 as u8,
        v: uv.1 as u8,
        layer,
        nx: n.0 as i8,
        ny: n.1 as i8,
        nz: n.2 as i8,
        ao,
    }
}

/// The six vertices of `face`: the triangle over corners 0, 1, 2 and the
/// triangle over corners 2, 3, 0. `ao` holds one occlusion value per corner.
pub open spec fn face_vertices(
    face: Face,
    x: int,
    y: int,
    z: int,
    layer: TextureLayer,
    ao: Seq<u8>,
) -> Seq<Vertex> {
    seq![
        corner_vertex(face, 0, x, y, z, layer, ao[0]),
        corner_vertex(face, 1, x, y, z, layer, ao[1]),
        corner_vertex(face, 2, x, y, z, layer, ao[2]),
        corner_vertex(face, 2, x, y, z, layer, ao[2]),
        corner_vertex(face, 3, x, y, z, layer, ao[3]),
        corner_vertex(face, 0, x, y, z, layer, ao[0]),
    ]
}

/// What `face` contributes to a cube's vertices: its six vertices where the
/// face is active, nothing where it is not. `faces` and `ao` are per-face
/// tables.
pub open spec fn face_part(
    face: Face,
    x: int,
    y: int,
    z: int,
    layers: UVFaces,
    faces: Seq<bool>,
    ao: Seq<Seq<u8>>,
) -> Seq<Vertex> {
    if faces[face.ordinal() as int] {
        face_vertices(face, x, y, z, layer_of(layers, face), ao[face.ordinal() as int])
    } else {
        Seq::empty()
    }
}

/// The vertices of the cube whose least corner is `(x, y, z)`: the active
/// faces in the order front, back, left, right, top, bottom.
pub open spec fn cube_vertices(
    x: int,
    y: int,
    z: int,
    layers: UVFaces,
    faces: Seq<bool>,
    ao: Seq<Seq<u8>>,
) -> Seq<Vertex> {
    face_part(Face::Front, x, y, z, layers, faces, ao) + face_part(
        Face::Back,
        x,
        y,
        z,
        layers,
        faces,
        ao,
    ) + face_part(Face::Left, x, y, z, layers, faces, ao) + face_part(
        Face::Right,
        x,
        y,
        z,
        layers,
        faces,
        ao,
    ) + face_part(Face::Top, x, y, z, layers, faces, ao) + face_part(
        Face::Bottom,
        x,
        y,
        z,
        layers,
        faces,
        ao,
    )
}

/// How many of the first `n` entries of `faces` are set.
pub open spec fn active_count(faces: Seq<bool>, n: nat) -> nat
    decreases n,
{
    if n == 0 {
        0
    } else {
        active_count(faces, (n - 1) as nat) + if faces[n - 1] {
            1nat
        } else {
            0nat
        }
    }
}

/// A per-face, per-corner occlusion table as nested sequences.
pub open spec fn ao_table(ao: [[u8; 4]; 6]) -> Seq<Seq<u8>> {
    Seq::new(6, |f: int| ao[f]@)
}

/// A cube's mesh has six vertices for each of its active faces.
pub proof fn lemma_cube_vertices_len(
    x: int,
    y: int,
    z: int,
    layers: UVFaces,
    faces: Seq<bool>,
    ao: Seq<Seq<u8>>,
)
    ensures
        cube_vertices(x, y, z, layers, faces, ao).len() == 6 * active_count(faces, 6),
        cube_vertices(x, y, z, layers, faces, ao).len() <= 36,
{
    reveal_with_fuel(active_count, 7);
}

/// The layer that `layers` assigns to `face`.
pub fn face_layer(layers: UVFaces, face: Face) -> (layer: TextureLayer)
    ensures
        layer == layer_of(layers, face),
{
    match face {
        Face::Front => layers.0,
        Face::Back => layers.1,
        Face::Top => layers.2,
        Face::Bottom => layers.3,
        Face::Left => layers.4,
        Face::Right => layers.5,
    }
}

fn make_corner_vertex(
    face: Face,
    corner: usize,
    x: i32,
    y: i32,
    z: i32,
    layer: TextureLayer,
    ao: u8,
) -> (vertex: Vertex)
    requires
        corner < 4,
        x < i32::MAX,
        y < i32::MAX,
        z < i32::MAX,
    ensures
        vertex == corner_vertex(face, corner as int, x as int, y as int, z as int, layer, ao),
{
    let p = corner_offset(face, corner);
    let n = face.offset();
    let (u, v): (u8, u8) = if corner == 0 {
        (0, 0)
    } else if corner == 1 {
        (1, 0)
    } else if corner == 2 {
        (1, 1)
    } else {
        (0, 1)
    };
    Vertex {
        x: x + p.0 as i32,
        y: y + p.1 as i32,
        z: z + p.2 as i32,
        u,
        v,
        layer,
        nx: n.0,
        ny: n.1,
        nz: n.2,
        ao,
    }
}

/// Appends the six vertices of one face to `ptr`.
fn write_face(
    ptr: &mut Vec<Vertex>,
    face: Face,
    x: i32,
    y: i32,
    z: i32,
    layer: TextureLayer,
    ao: [u8; 4],
)
    requires
        x < i32::MAX,
        y < i32::MAX,
        z < i32::MAX,
    ensures
        final(ptr)@ == old(ptr)@ + face_vertices(
            face,
            x as int,
            y as int,
            z as int,
            layer,
            ao@,
        ),
{
    let c0 = make_corner_vertex(face, 0, x, y, z, layer, ao[0]);
    let c1 = make_corner_vertex(face, 1, x, y, z, layer, ao[1]);
    let c2 = make_corner_vertex(face, 2, x, y, z, layer, ao[2]);
    let c3 = make_corner_vertex(face, 3, x, y, z, layer, ao[3]);
    ptr.push(c0);
    ptr.push(c1);
    ptr.push(c2);
    ptr.push(c2);
    ptr.push(c3);
    ptr.push(c0);
    assert(ptr@ =~= old(ptr)@ + face_vertices(face, x as int, y as int, z as int, layer, ao@));
}

/// Appends one face to `ptr` where the face is active, and counts what it
/// appended.
fn write_face_part(
    ptr: &mut Vec<Vertex>,
    face: Face,
    x: i32,
    y: i32,
    z: i32,
    layers: UVFaces,
    faces: &[bool; 6],
    ao: &[[u8; 4]; 6],
) -> (copied: u32)
    requires
        x < i32::MAX,
        y < i32::MAX,
        z < i32::MAX,
    ensures
        final(ptr)@ == old(ptr)@ + face_part(
            face,
            x as int,
            y as int,
            z as int,
            layers,
            faces@,
            ao_table(*ao),
        ),
        copied == face_part(
            face,
            x as int,
            y as int,
            z as int,
            layers,
            faces@,
            ao_table(*ao),
        ).len(),
        copied <= 6,
{
    let i = face.index();
    if faces[i] {
        write_face(ptr, face, x, y, z, face_layer(layers, face), ao[i]);
        VERTICES_PER_FACE
    } else {
        assert(ptr@ =~= old(ptr)@ + Seq::<Vertex>::empty());
        0
    }
}

/// Writes the vertices of the cube whose least corner is `(x, y, z)` at the
/// end of `ptr` and returns how many vertices it wrote: six for each face
/// that `faces` marks active, in the order front, back, left, right, top,
/// bottom. `faces` and `ao` are indexed by face, `ao` then by corner.
pub fn write_unit_cube_to_ptr(
    ptr: &mut Vec<Vertex>,
    x: i32,
    y: i32,
    z: i32,
    layers: UVFaces,
    faces: [bool; 6],
    ao: [[u8; 4]; 6],
) -> (copied_vertices: u32)
    requires
        x < i32::MAX,
        y < i32::MAX,
        z < i32::MAX,
    ensures
        final(ptr)@ == old(ptr)@ + cube_vertices(
            x as int,
            y as int,
            z as int,
            layers,
            faces@,
            ao_table(ao),
        ),
        copied_vertices == cube_vertices(
            x as int,
            y as int,
            z as int,
            layers,
            faces@,
            ao_table(ao),
        ).len(),
        copied_vertices == 6 * active_count(faces@, 6),
{
    let mut copied_vertices: u32 = 0;
    copied_vertices += write_face_part(ptr, Face::Front, x, y, z, layers, &faces, &ao);
    copied_vertices += write_face_part(ptr, Face::Back, x, y, z, layers, &faces, &ao);
    copied_vertices += write_face_part(ptr, Face::Left, x, y, z, layers, &faces, &ao);
    copied_vertices += write_face_part(ptr, Face::Right, x, y, z, layers, &faces, &ao);
    copied_vertices += write_face_part(ptr, Face::Top, x, y, z, layers, &faces, &ao);
    copied_vertices += write_face_part(ptr, Face::Bottom, x, y, z, layers, &faces, &ao);
    proof {
        lemma_cube_vertices_len(x as int, y as int, z as int, layers, faces@, ao_table(ao));
        assert(ptr@ =~= old(ptr)@ + cube_vertices(
            x as int,
            y as int,
            z as int,
            layers,
            faces@,
            ao_table(ao),
        ));
    }
    copied_vertices
}

/// The 36 vertices of a whole cube whose least corner is `(x, y, z)`, with
/// no occlusion on any corner.
pub fn centered_unit_cube(x: i32, y: i32, z: i32, layers: UVFaces) -> (vertices: Vec<Vertex>)
    requires
        x < i32::MAX,
        y < i32::MAX,
        z < i32::MAX,
    ensures
        vertices@ == cube_vertices(
            x as int,
            y as int,
            z as int,
            layers,
            Seq::new(6, |f: int| true),
            Seq::new(6, |f: int| Seq::new(4, |c: int| 0u8)),
        ),
        vertices@.len() == 36,
{
    let mut vertices: Vec<Vertex> = Vec::new();
    let faces: [bool; 6] = [true; 6];
    let ao: [[u8; 4]; 6] = [[0; 4]; 6];
    let copied = write_unit_cube_to_ptr(&mut vertices, x, y, z, layers, faces, ao);
    proof {
        assert(faces@ =~= Seq::new(6, |f: int| true));
        assert(ao_table(ao) =~~= Seq::new(6, |f: int| Seq::new(4, |c: int| 0u8)));
        reveal_with_fuel(active_count, 7);
    }
    vertices
}

/// Point `p` of an outline: three coordinates.
pub open spec fn outline_point(points: Seq<u8>, p: int) -> (int, int, int) {
    (points[3 * p] as int, points[3 * p + 1] as int, points[3 * p + 2] as int)
}

/// Segment `k` of a block's outline, as its two end points. The twelve
/// edges of the unit cube come in three groups of four parallel edges: along
/// `x`, along `y` and along `z`. An edge runs from 0 to 1 along its axis;
/// the four edges of a group go round the cube as the corners of a face do.
pub open spec fn outline_segment(k: int) -> ((int, int, int), (int, int, int)) {
    let (a, b) = corner_uv(k % 4);
    if k / 4 == 0 {
        ((0, a, b), (1, a, b))
    } else if k / 4 == 1 {
        ((a, 0, b), (a, 1, b))
    } else {
        ((a, b, 0), (a, b, 1))
    }
}

/// The outline of a block: the twelve edges of the unit cube as line
/// segments, two points each, every point as three coordinates.
pub fn block_outline() -> (points: [u8; 72])
    ensures
        forall|k: int|
            0 <= k < 12 ==> outline_point(points@, 2 * k) == (#[trigger] outline_segment(k)).0
                && outline_point(points@, 2 * k + 1) == outline_segment(k).1,
{
    [
        0, 0, 0, 1, 0, 0,
        0, 1, 0, 1, 1, 0,
        0, 1, 1, 1, 1, 1,
        0, 0, 1, 1, 0, 1,
        0, 0, 0, 0, 1, 0,
        1, 0, 0, 1, 1, 0,
        1, 0, 1, 1, 1, 1,
        0, 0, 1, 0, 1, 1,
        0, 0, 0, 0, 0, 1,
        1, 0, 0, 1, 0, 1,
        1, 1, 0, 1, 1, 1,
        0, 1, 0, 0, 1, 1,
    ]
}

/// The segments of a block's outline are edges of the unit cube, two
/// corners that differ along one axis alone, and no two of them are the same
/// edge.
pub proof fn lemma_outline_segments(j: int, k: int)
    requires
        0 <= j < 12,
        0 <= k < 12,
    ensures
        ({
            let (from, to) = outline_segment(k);
            &&& 0 <= from.0 <= 1 && 0 <= from.1 <= 1 && 0 <= from.2 <= 1
            &&& 0 <= to.0 <= 1 && 0 <= to.1 <= 1 && 0 <= to.2 <= 1
            &&& (to.0 - from.0) + (to.1 - from.1) + (to.2 - from.2) == 1
            &&& to.0 >= from.0 && to.1 >= from.1 && to.2 >= from.2
        }),
        j != k ==> outline_segment(j) != outline_segment(k),
{
}

} // verus!
