use voxel_core::block::BlockID;
use voxel_core::chunk::{Chunk, MAX_CHUNK_VERTICES};
use voxel_core::coords::BlockIterator;
use voxel_core::face::Face;
use voxel_core::mesh::{is_face_visible, read_around};
use voxel_core::neighbors::Neighbors;
use voxel_core::shapes::Vertex;
use voxel_core::texture::TexturePack;

const FACES: [Face; 6] = [Face::Right, Face::Left, Face::Top, Face::Bottom, Face::Front, Face::Back];

fn textures() -> TexturePack {
    let mut pack = TexturePack::new();
    pack.set(BlockID::Stone, (10, 11, 12, 13, 14, 15));
    pack.set(BlockID::Dirt, (20, 20, 20, 20, 20, 20));
    pack.set(BlockID::Glass, (30, 30, 30, 30, 30, 30));
    pack
}

fn active_faces(chunk: &Chunk) -> usize {
    let mut n = 0;
    for (x, y, z) in BlockIterator::cells() {
        for face in FACES {
            if chunk.is_face_active(x, y, z, face) {
                n += 1;
            }
        }
    }
    n
}

#[test]
fn face_shows_between_opaque_and_transparent_only() {
    assert!(is_face_visible(BlockID::Stone, BlockID::Air));
    assert!(is_face_visible(BlockID::Stone, BlockID::Glass));
    assert!(is_face_visible(BlockID::Stone, BlockID::OakLeaves));
    assert!(!is_face_visible(BlockID::Stone, BlockID::Dirt));
    assert!(!is_face_visible(BlockID::Dirt, BlockID::Stone));
    assert!(!is_face_visible(BlockID::Air, BlockID::Stone));
    assert!(!is_face_visible(BlockID::Air, BlockID::Air));
    assert!(!is_face_visible(BlockID::Glass, BlockID::Stone));
    assert!(!is_face_visible(BlockID::Glass, BlockID::Air));
    assert!(!is_face_visible(BlockID::Glass, BlockID::Glass));
    assert!(!is_face_visible(BlockID::OakLeaves, BlockID::Glass));
}

#[test]
fn lone_block_shows_six_faces_and_36_vertices() {
    let mut chunk = Chunk::empty();
    chunk.set_block(BlockID::Stone, 1, 2, 3);
    let stream = chunk.rebuild(&Neighbors::none(), &textures());
    assert_eq!(stream.len(), 36);
    assert_eq!(chunk.vertices_drawn(), 36);
    for face in FACES {
        assert!(chunk.is_face_active(1, 2, 3, face));
    }
    assert_eq!(active_faces(&chunk), 6);
    assert!(stream.iter().all(|v| v.ao == 0));
}

#[test]
fn lone_block_in_a_corner_shows_six_faces() {
    let mut chunk = Chunk::empty();
    chunk.set_block(BlockID::Dirt, 0, 0, 0);
    let stream = chunk.rebuild(&Neighbors::none(), &textures());
    assert_eq!(stream.len(), 36);
    assert_eq!(active_faces(&chunk), 6);
    let air = Chunk::empty();
    let around = Neighbors {
        right: Some(&air),
        left: Some(&air),
        top: Some(&air),
        bottom: Some(&air),
        front: Some(&air),
        back: Some(&air),
    };
    chunk.mark_dirty();
    let again = chunk.rebuild(&around, &textures());
    assert_eq!(again, stream);
}

#[test]
fn lone_block_mesh_starts_with_the_front_face() {
    let mut chunk = Chunk::empty();
    chunk.set_block(BlockID::Stone, 1, 2, 3);
    let stream = chunk.rebuild(&Neighbors::none(), &textures());
    assert_eq!(
        stream[0],
        Vertex { x: 1, y: 2, z: 4, u: 0, v: 0, layer: 10, nx: 0, ny: 0, nz: 1, ao: 0 }
    );
    assert_eq!(
        stream[1],
        Vertex { x: 2, y: 2, z: 4, u: 1, v: 0, layer: 10, nx: 0, ny: 0, nz: 1, ao: 0 }
    );
    let normals: Vec<(i8, i8, i8)> = stream.iter().step_by(6).map(|v| (v.nx, v.ny, v.nz)).collect();
    assert_eq!(
        normals,
        vec![(0, 0, 1), (0, 0, -1), (-1, 0, 0), (1, 0, 0), (0, 1, 0), (0, -1, 0)]
    );
    let layers: Vec<u32> = stream.iter().step_by(6).map(|v| v.layer).collect();
    assert_eq!(layers, vec![10, 11, 14, 15, 12, 13]);
}

#[test]
fn empty_chunk_has_an_empty_mesh() {
    let mut chunk = Chunk::empty();
    let stream = chunk.rebuild(&Neighbors::none(), &textures());
    assert!(stream.is_empty());
    assert_eq!(chunk.vertices_drawn(), 0);
    assert_eq!(active_faces(&chunk), 0);
}

#[test]
fn lone_glass_block_shows_no_face() {
    let mut chunk = Chunk::empty();
    chunk.set_block(BlockID::Glass, 5, 5, 5);
    let stream = chunk.rebuild(&Neighbors::none(), &textures());
    assert!(stream.is_empty());
    assert_eq!(active_faces(&chunk), 0);
}

#[test]
fn adjacent_opaque_blocks_hide_their_shared_face() {
    let mut chunk = Chunk::empty();
    chunk.set_block(BlockID::Stone, 1, 1, 1);
    chunk.set_block(BlockID::Dirt, 2, 1, 1);
    let stream = chunk.rebuild(&Neighbors::none(), &textures());
    assert!(!chunk.is_face_active(1, 1, 1, Face::Right));
    assert!(!chunk.is_face_active(2, 1, 1, Face::Left));
    assert!(chunk.is_face_active(1, 1, 1, Face::Left));
    assert!(chunk.is_face_active(2, 1, 1, Face::Right));
    assert_eq!(active_faces(&chunk), 10);
    assert_eq!(stream.len(), 60);
}

#[test]
fn shared_faces_are_hidden_along_every_axis() {
    for face in FACES {
        let n = face.offset();
        let mut chunk = Chunk::empty();
        chunk.set_block(BlockID::Stone, 5, 5, 5);
        let (x, y, z) = ((5 + n.0) as u32, (5 + n.1) as u32, (5 + n.2) as u32);
        chunk.set_block(BlockID::Cobblestone, x, y, z);
        let stream = chunk.rebuild(&Neighbors::none(), &textures());
        assert_eq!(stream.len(), 60);
        assert!(!chunk.is_face_active(5, 5, 5, face));
        for other in FACES {
            if other != face {
                assert!(chunk.is_face_active(5, 5, 5, other));
            }
        }
    }
}

#[test]
fn opaque_block_shows_its_face_to_glass_and_glass_shows_none() {
    let mut chunk = Chunk::empty();
    chunk.set_block(BlockID::Stone, 1, 1, 1);
    chunk.set_block(BlockID::Glass, 2, 1, 1);
    let stream = chunk.rebuild(&Neighbors::none(), &textures());
    assert!(chunk.is_face_active(1, 1, 1, Face::Right));
    for face in FACES {
        assert!(!chunk.is_face_active(2, 1, 1, face));
    }
    assert_eq!(stream.len(), 36);
}

#[test]
fn full_chunk_alone_shows_its_outer_faces() {
    let mut chunk = Chunk::full_of_block(BlockID::Stone);
    let stream = chunk.rebuild(&Neighbors::none(), &textures());
    assert_eq!(active_faces(&chunk), 6 * 256);
    assert_eq!(stream.len(), 6 * 256 * 6);
    assert!(!chunk.is_face_active(5, 5, 5, Face::Top));
    assert!(chunk.is_face_active(5, 15, 5, Face::Top));
    assert!(!chunk.is_face_active(5, 15, 5, Face::Bottom));
    assert!(stream.len() <= MAX_CHUNK_VERTICES as usize);
}

#[test]
fn buried_chunk_has_no_active_face() {
    let other = Chunk::full_of_block(BlockID::Stone);
    let around = Neighbors {
        right: Some(&other),
        left: Some(&other),
        top: Some(&other),
        bottom: Some(&other),
        front: Some(&other),
        back: Some(&other),
    };
    let mut chunk = Chunk::full_of_block(BlockID::Stone);
    let stream = chunk.rebuild(&around, &textures());
    assert!(stream.is_empty());
    assert_eq!(chunk.vertices_drawn(), 0);
    assert_eq!(active_faces(&chunk), 0);
}

#[test]
fn missing_neighbour_counts_as_air() {
    let other = Chunk::full_of_block(BlockID::Stone);
    let around = Neighbors {
        right: Some(&other),
        left: Some(&other),
        top: None,
        bottom: Some(&other),
        front: Some(&other),
        back: Some(&other),
    };
    let mut chunk = Chunk::full_of_block(BlockID::Stone);
    let stream = chunk.rebuild(&around, &textures());
    assert_eq!(active_faces(&chunk), 256);
    assert_eq!(stream.len(), 256 * 6);
    assert!(stream.iter().all(|v| (v.nx, v.ny, v.nz) == (0, 1, 0) && v.y == 16));
}

#[test]
fn border_face_looks_at_the_neighbour_chunk() {
    let mut right = Chunk::empty();
    right.set_block(BlockID::Dirt, 0, 5, 5);
    let mut chunk = Chunk::empty();
    chunk.set_block(BlockID::Stone, 15, 5, 5);
    chunk.set_block(BlockID::Stone, 15, 6, 5);
    let around = Neighbors { right: Some(&right), ..Neighbors::none() };
    let stream = chunk.rebuild(&around, &textures());
    assert!(!chunk.is_face_active(15, 5, 5, Face::Right));
    assert!(chunk.is_face_active(15, 6, 5, Face::Right));
    assert_eq!(stream.len(), 9 * 6);
}

#[test]
fn reading_around_a_chunk() {
    let mut chunk = Chunk::empty();
    chunk.set_block(BlockID::Stone, 3, 4, 5);
    let mut right = Chunk::empty();
    right.set_block(BlockID::Dirt, 0, 7, 8);
    let mut bottom = Chunk::empty();
    bottom.set_block(BlockID::Glass, 2, 15, 3);
    let around = Neighbors { right: Some(&right), bottom: Some(&bottom), ..Neighbors::none() };
    let mut blocks = Vec::new();
    for (x, y, z) in BlockIterator::cells() {
        blocks.push(chunk.get_block(x, y, z));
    }
    assert_eq!(read_around(&blocks, &around, 3, 4, 5), BlockID::Stone);
    assert_eq!(read_around(&blocks, &around, 4, 4, 5), BlockID::Air);
    assert_eq!(read_around(&blocks, &around, 16, 7, 8), BlockID::Dirt);
    assert_eq!(read_around(&blocks, &around, 16, 7, 9), BlockID::Air);
    assert_eq!(read_around(&blocks, &around, 2, -1, 3), BlockID::Glass);
    assert_eq!(read_around(&blocks, &around, -1, 7, 8), BlockID::Air);
    assert_eq!(read_around(&blocks, &around, 16, 16, 8), BlockID::Air);
    assert_eq!(read_around(&blocks, &around, 17, 7, 8), BlockID::Air);
    assert_eq!(read_around(&blocks, &around, 16, -1, 3), BlockID::Air);
}

#[test]
fn rebuild_leaves_the_chunk_clean() {
    let mut chunk = Chunk::empty();
    chunk.attach_buffers(3, 4);
    chunk.set_block(BlockID::Stone, 1, 1, 1);
    assert!(chunk.needs_rebuild());
    chunk.rebuild(&Neighbors::none(), &textures());
    assert!(!chunk.is_dirty());
    assert!(!chunk.needs_complete_rebuild());
    assert!(!chunk.needs_rebuild());
    assert_eq!(chunk.get_block(1, 1, 1), BlockID::Stone);
    assert_eq!(chunk.vao(), 3);
    assert_eq!(chunk.vbo(), 4);
}

#[test]
fn rebuilding_twice_gives_the_same_mesh() {
    let mut chunk = Chunk::random();
    chunk.set_block(BlockID::Air, 4, 4, 4);
    chunk.set_block(BlockID::OakLeaves, 4, 5, 4);
    chunk.set_block(BlockID::Glass, 0, 0, 0);
    let side = Chunk::random();
    let around = Neighbors { left: Some(&side), top: Some(&side), ..Neighbors::none() };
    let first = chunk.rebuild(&around, &textures());
    let count = chunk.vertices_drawn();
    let second = chunk.rebuild(&around, &textures());
    assert_eq!(first, second);
    assert_eq!(chunk.vertices_drawn(), count);
    assert_eq!(count as usize, first.len());
}

#[test]
fn clean_chunk_is_not_rebuilt() {
    let mut chunk = Chunk::empty();
    chunk.set_block(BlockID::Stone, 1, 1, 1);
    let first = chunk.rebuild_if_dirty(&Neighbors::none(), &textures());
    assert_eq!(first.map(|s| s.len()), Some(36));
    assert!(chunk.rebuild_if_dirty(&Neighbors::none(), &textures()).is_none());
    assert_eq!(chunk.vertices_drawn(), 36);
    chunk.mark_dirty();
    let again = chunk.rebuild_if_dirty(&Neighbors::none(), &textures());
    assert_eq!(again.map(|s| s.len()), Some(36));
}

#[test]
fn forced_rebuild_runs_without_a_write() {
    let mut chunk = Chunk::full_of_block(BlockID::Stone);
    assert!(!chunk.is_dirty());
    assert!(chunk.needs_complete_rebuild());
    let stream = chunk.rebuild_if_dirty(&Neighbors::none(), &textures());
    assert_eq!(stream.map(|s| s.len()), Some(6 * 256 * 6));
    assert!(!chunk.needs_complete_rebuild());
}

#[test]
fn write_after_rebuild_changes_the_next_mesh() {
    let mut chunk = Chunk::empty();
    chunk.set_block(BlockID::Stone, 1, 1, 1);
    chunk.rebuild(&Neighbors::none(), &textures());
    chunk.set_block(BlockID::Air, 1, 1, 1);
    assert!(chunk.is_face_active(1, 1, 1, Face::Top));
    let stream = chunk.rebuild_if_dirty(&Neighbors::none(), &textures());
    assert_eq!(stream.map(|s| s.len()), Some(0));
    assert!(!chunk.is_face_active(1, 1, 1, Face::Top));
}

#[test]
fn occlusion_of_an_open_corner_is_least() {
    let mut chunk = Chunk::empty();
    chunk.set_block(BlockID::Stone, 1, 1, 1);
    chunk.rebuild(&Neighbors::none(), &textures());
    for face in FACES {
        assert_eq!(chunk.face_occlusion(1, 1, 1, face), [0, 0, 0, 0]);
    }
}

#[test]
fn occlusion_counts_edge_and_diagonal_blocks() {
    let mut chunk = Chunk::empty();
    chunk.set_block(BlockID::Stone, 1, 1, 1);
    chunk.set_block(BlockID::Stone, 2, 2, 1);
    chunk.rebuild(&Neighbors::none(), &textures());
    assert_eq!(chunk.face_occlusion(1, 1, 1, Face::Top), [0, 1, 1, 0]);

    let mut chunk = Chunk::empty();
    chunk.set_block(BlockID::Stone, 1, 1, 1);
    chunk.set_block(BlockID::Stone, 2, 2, 2);
    chunk.rebuild(&Neighbors::none(), &textures());
    assert_eq!(chunk.face_occlusion(1, 1, 1, Face::Top), [0, 1, 0, 0]);

    let mut chunk = Chunk::empty();
    chunk.set_block(BlockID::Stone, 1, 1, 1);
    chunk.set_block(BlockID::Stone, 2, 2, 1);
    chunk.set_block(BlockID::Stone, 2, 2, 2);
    chunk.rebuild(&Neighbors::none(), &textures());
    assert_eq!(chunk.face_occlusion(1, 1, 1, Face::Top), [0, 2, 1, 0]);
}

#[test]
fn two_solid_edges_close_a_corner_with_or_without_the_diagonal() {
    let mut open = Chunk::empty();
    open.set_block(BlockID::Stone, 1, 1, 1);
    open.set_block(BlockID::Stone, 2, 2, 1);
    open.set_block(BlockID::Stone, 1, 2, 2);
    open.rebuild(&Neighbors::none(), &textures());
    let mut closed = Chunk::empty();
    closed.set_block(BlockID::Stone, 1, 1, 1);
    closed.set_block(BlockID::Stone, 2, 2, 1);
    closed.set_block(BlockID::Stone, 1, 2, 2);
    closed.set_block(BlockID::Stone, 2, 2, 2);
    closed.rebuild(&Neighbors::none(), &textures());
    assert_eq!(open.face_occlusion(1, 1, 1, Face::Top)[1], 3);
    assert_eq!(closed.face_occlusion(1, 1, 1, Face::Top)[1], 3);
    assert_eq!(open.face_occlusion(1, 1, 1, Face::Top), [1, 3, 1, 0]);
    assert_eq!(closed.face_occlusion(1, 1, 1, Face::Top), [1, 3, 1, 0]);
}

#[test]
fn leaves_cast_shadow_and_glass_does_not() {
    let mut chunk = Chunk::empty();
    chunk.set_block(BlockID::Stone, 1, 1, 1);
    chunk.set_block(BlockID::OakLeaves, 2, 2, 1);
    chunk.rebuild(&Neighbors::none(), &textures());
    assert_eq!(chunk.face_occlusion(1, 1, 1, Face::Top), [0, 1, 1, 0]);
    assert!(chunk.is_face_active(1, 1, 1, Face::Top));

    let mut chunk = Chunk::empty();
    chunk.set_block(BlockID::Stone, 1, 1, 1);
    chunk.set_block(BlockID::Glass, 2, 2, 1);
    chunk.rebuild(&Neighbors::none(), &textures());
    assert_eq!(chunk.face_occlusion(1, 1, 1, Face::Top), [0, 0, 0, 0]);
}

#[test]
fn occlusion_samples_reach_into_the_neighbour_chunk() {
    let mut right = Chunk::empty();
    right.set_block(BlockID::Stone, 0, 2, 1);
    let mut chunk = Chunk::empty();
    chunk.set_block(BlockID::Stone, 15, 1, 1);
    let around = Neighbors { right: Some(&right), ..Neighbors::none() };
    chunk.rebuild(&around, &textures());
    assert_eq!(chunk.face_occlusion(15, 1, 1, Face::Top), [0, 1, 1, 0]);
    chunk.mark_dirty();
    chunk.rebuild(&Neighbors::none(), &textures());
    assert_eq!(chunk.face_occlusion(15, 1, 1, Face::Top), [0, 0, 0, 0]);
}

#[test]
fn occlusion_goes_into_the_vertices() {
    let mut chunk = Chunk::empty();
    chunk.set_block(BlockID::Stone, 1, 1, 1);
    chunk.set_block(BlockID::Glass, 1, 2, 1);
    chunk.set_block(BlockID::Stone, 2, 2, 1);
    chunk.set_block(BlockID::Stone, 1, 2, 2);
    let stream = chunk.rebuild(&Neighbors::none(), &textures());
    let top: Vec<&Vertex> = stream
        .iter()
        .filter(|v| (v.nx, v.ny, v.nz) == (0, 1, 0) && v.y == 2 && v.layer == 12)
        .filter(|v| (1..=2).contains(&v.x) && (1..=2).contains(&v.z))
        .take(6)
        .collect();
    let ao: Vec<u8> = top.iter().map(|v| v.ao).collect();
    assert_eq!(ao, vec![1, 3, 1, 1, 0, 1]);
}

#[test]
fn cells_are_meshed_in_storage_order() {
    let mut chunk = Chunk::empty();
    chunk.set_block(BlockID::Dirt, 0, 1, 0);
    chunk.set_block(BlockID::Stone, 5, 0, 5);
    chunk.set_block(BlockID::Dirt, 7, 0, 2);
    let stream = chunk.rebuild(&Neighbors::none(), &textures());
    assert_eq!(stream.len(), 108);
    assert_eq!((stream[0].x, stream[0].y, stream[0].z), (7, 0, 3));
    assert_eq!((stream[36].x, stream[36].y, stream[36].z), (5, 0, 6));
    assert_eq!((stream[72].x, stream[72].y, stream[72].z), (0, 1, 1));
}
