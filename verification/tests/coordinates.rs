use voxel_core::coords::{
    chunk_and_local, chunk_coords_to_array_index, BlockIterator, CHUNK_AREA, CHUNK_SIZE,
    CHUNK_VOLUME,
};

#[test]
fn chunk_dimensions() {
    assert_eq!(CHUNK_SIZE, 16);
    assert_eq!(CHUNK_AREA, 256);
    assert_eq!(CHUNK_VOLUME, 4096);
}

#[test]
fn index_is_y_then_z_then_x() {
    assert_eq!(chunk_coords_to_array_index(0, 0, 0), 0);
    assert_eq!(chunk_coords_to_array_index(1, 0, 0), 1);
    assert_eq!(chunk_coords_to_array_index(0, 0, 1), 16);
    assert_eq!(chunk_coords_to_array_index(0, 1, 0), 256);
    assert_eq!(chunk_coords_to_array_index(3, 2, 1), 2 * 256 + 16 + 3);
    assert_eq!(chunk_coords_to_array_index(15, 15, 15), 4095);
}

#[test]
fn iterator_starts_at_origin() {
    let mut it = BlockIterator::new();
    assert_eq!(it.next(), Some((0, 0, 0)));
    assert_eq!(it.next(), Some((1, 0, 0)));
}

#[test]
fn iterator_yields_4096_cells_then_stops() {
    let mut it = BlockIterator::new();
    let mut count = 0;
    while let Some(_) = it.next() {
        count += 1;
    }
    assert_eq!(count, 4096);
    assert_eq!(it.next(), None);
    assert_eq!(it.next(), None);
}

#[test]
fn iterator_runs_x_fastest_then_z_then_y() {
    let mut it = BlockIterator::new();
    let mut cells = Vec::new();
    while let Some(cell) = it.next() {
        cells.push(cell);
    }
    assert_eq!(cells[15], (15, 0, 0));
    assert_eq!(cells[16], (0, 0, 1));
    assert_eq!(cells[255], (15, 0, 15));
    assert_eq!(cells[256], (0, 1, 0));
    assert_eq!(cells[4095], (15, 15, 15));
    for (i, &(x, y, z)) in cells.iter().enumerate() {
        assert_eq!(chunk_coords_to_array_index(x, y, z), i);
    }
}

#[test]
fn iterator_visits_every_cell_once() {
    let mut seen = vec![false; 4096];
    let mut it = BlockIterator::new();
    while let Some((x, y, z)) = it.next() {
        assert!(x < 16 && y < 16 && z < 16);
        let i = (y * 256 + z * 16 + x) as usize;
        assert!(!seen[i]);
        seen[i] = true;
    }
    assert!(seen.iter().all(|&s| s));
}

#[test]
fn a_new_iterator_yields_the_same_sequence() {
    let mut first = BlockIterator::new();
    let mut a = Vec::new();
    while let Some(cell) = first.next() {
        a.push(cell);
    }
    let mut second = BlockIterator::new();
    let mut b = Vec::new();
    while let Some(cell) = second.next() {
        b.push(cell);
    }
    assert_eq!(a, b);
    assert_eq!(BlockIterator::cells(), a);
}

#[test]
fn world_coordinates_split_into_chunk_and_cell() {
    assert_eq!(chunk_and_local(0), (0, 0));
    assert_eq!(chunk_and_local(15), (0, 15));
    assert_eq!(chunk_and_local(16), (1, 0));
    assert_eq!(chunk_and_local(37), (2, 5));
    assert_eq!(chunk_and_local(-1), (-1, 15));
    assert_eq!(chunk_and_local(-16), (-1, 0));
    assert_eq!(chunk_and_local(-17), (-2, 15));
    assert_eq!(chunk_and_local(i32::MAX), (134217727, 15));
    assert_eq!(chunk_and_local(i32::MIN), (-134217728, 0));
}
