use voxel_core::block::BlockID;
use voxel_core::column::ChunkColumn;
use voxel_core::dirty::stale_neighbors;
use voxel_core::face::Face;

fn clean_column() -> ChunkColumn {
    let mut column = ChunkColumn::new();
    for chunk in column.chunks.iter_mut() {
        chunk.set_needs_complete_rebuild(false);
    }
    column
}

fn dirty_chunks(column: &ChunkColumn) -> Vec<usize> {
    (0..16).filter(|&i| column.chunks[i].is_dirty()).collect()
}

#[test]
fn interior_write_marks_no_neighbour() {
    assert_eq!(stale_neighbors(5, 5, 5), [false; 6]);
    assert_eq!(stale_neighbors(1, 1, 1), [false; 6]);
    assert_eq!(stale_neighbors(14, 14, 14), [false; 6]);
}

#[test]
fn write_at_x_0_marks_the_left_neighbour_only() {
    let stale = stale_neighbors(0, 5, 5);
    for face in [Face::Right, Face::Left, Face::Top, Face::Bottom, Face::Front, Face::Back] {
        assert_eq!(stale[face.index()], face == Face::Left);
    }
}

#[test]
fn each_side_marks_its_own_neighbour() {
    assert_eq!(stale_neighbors(15, 5, 5), [true, false, false, false, false, false]);
    assert_eq!(stale_neighbors(0, 5, 5), [false, true, false, false, false, false]);
    assert_eq!(stale_neighbors(5, 15, 5), [false, false, true, false, false, false]);
    assert_eq!(stale_neighbors(5, 0, 5), [false, false, false, true, false, false]);
    assert_eq!(stale_neighbors(5, 5, 15), [false, false, false, false, true, false]);
    assert_eq!(stale_neighbors(5, 5, 0), [false, false, false, false, false, true]);
}

#[test]
fn corner_write_marks_one_neighbour_per_axis() {
    assert_eq!(stale_neighbors(0, 0, 0), [false, true, false, true, false, true]);
    assert_eq!(stale_neighbors(15, 15, 15), [true, false, true, false, true, false]);
    assert_eq!(stale_neighbors(0, 15, 7), [false, true, true, false, false, false]);
}

#[test]
fn plain_column_write_dirties_only_the_owning_chunk() {
    let mut column = clean_column();
    column.set_block(BlockID::Stone, 0, 16, 0);
    assert_eq!(dirty_chunks(&column), vec![1]);
}

#[test]
fn interior_column_write_dirties_one_chunk() {
    let mut column = clean_column();
    let stale = column.set_block_and_invalidate(BlockID::Stone, 5, 40, 5);
    assert_eq!(stale, [false; 6]);
    assert_eq!(dirty_chunks(&column), vec![2]);
    assert_eq!(column.get_block(5, 40, 5), BlockID::Stone);
}

#[test]
fn write_at_the_foot_of_a_chunk_dirties_the_chunk_below() {
    let mut column = clean_column();
    let stale = column.set_block_and_invalidate(BlockID::Stone, 5, 32, 5);
    assert_eq!(stale, [false, false, false, true, false, false]);
    assert_eq!(dirty_chunks(&column), vec![1, 2]);
}

#[test]
fn write_at_the_top_of_a_chunk_dirties_the_chunk_above() {
    let mut column = clean_column();
    let stale = column.set_block_and_invalidate(BlockID::Stone, 5, 47, 5);
    assert_eq!(stale, [false, false, true, false, false, false]);
    assert_eq!(dirty_chunks(&column), vec![2, 3]);
}

#[test]
fn writes_at_the_ends_of_the_column_stay_inside() {
    let mut column = clean_column();
    column.set_block_and_invalidate(BlockID::Stone, 5, 0, 5);
    assert_eq!(dirty_chunks(&column), vec![0]);
    let mut column = clean_column();
    column.set_block_and_invalidate(BlockID::Stone, 5, 255, 5);
    assert_eq!(dirty_chunks(&column), vec![15]);
}

#[test]
fn side_write_reports_the_side_columns() {
    let mut column = clean_column();
    let stale = column.set_block_and_invalidate(BlockID::Stone, 0, 40, 15);
    assert_eq!(stale, [false, true, false, false, true, false]);
    assert_eq!(dirty_chunks(&column), vec![2]);
}

#[test]
fn marking_a_chunk_of_a_column_dirty() {
    let mut column = clean_column();
    column.mark_dirty(7);
    assert_eq!(dirty_chunks(&column), vec![7]);
    assert_eq!(column.get_block(0, 7 * 16, 0), BlockID::Air);
}
