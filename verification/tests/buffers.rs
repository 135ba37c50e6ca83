use mls_mpm::grid_index::pos_to_idx;
use mls_mpm::{GridBuffer, ParticleBuffer};

#[test]
fn grid_buffer_reads_row_major_cells() {
    let grid = GridBuffer::from_vec(vec![10, 11, 12, 13, 14, 15], [3, 2]);
    assert_eq!(grid.at([0, 0]), Some(&10));
    assert_eq!(grid.at([2, 0]), Some(&12));
    assert_eq!(grid.at([0, 1]), Some(&13));
    assert_eq!(grid.at([1, 1]), Some(&14));
    assert_eq!(grid.shape(), [3, 2]);
}

#[test]
fn grid_buffer_layout_matches_kernel_index() {
    let width = 4usize;
    let height = 3usize;
    let values: Vec<usize> = (0..width * height).collect();
    let grid = GridBuffer::from_vec(values, [width, height]);
    for y in 0..height {
        for x in 0..width {
            let idx = pos_to_idx((x as i32, y as i32), (width, height));
            assert_eq!(grid.at([x, y]), Some(&idx));
        }
    }
}

#[test]
fn grid_buffer_out_of_range_is_none() {
    let grid = GridBuffer::from_vec(vec![1u32, 2, 3, 4], [2, 2]);
    assert_eq!(grid.at([0, 2]), None);
    assert_eq!(grid.at([1, 5]), None);
    assert_eq!(grid.at([usize::MAX, usize::MAX]), None);
}

#[test]
fn grid_buffer_position_past_row_end_is_none() {
    let grid = GridBuffer::from_vec(vec![10u32, 20, 30, 40, 50, 60], [3, 2]);
    assert_eq!(grid.at([3, 0]), None);
    assert_eq!(grid.at([2, 0]), Some(&30));
    let mut grid = grid;
    assert!(grid.at_mut([3, 0]).is_none());
    assert_eq!(grid.values(), &vec![10, 20, 30, 40, 50, 60]);
}

#[test]
fn grid_buffer_node_without_value_is_none() {
    let grid = GridBuffer::from_vec(vec![1u32, 2, 3], [2, 2]);
    assert_eq!(grid.at([1, 1]), None);
    assert_eq!(grid.at([0, 1]), Some(&3));
}

#[test]
fn grid_buffer_write_then_read() {
    let mut grid = GridBuffer::from_vec(vec![0u32; 6], [3, 2]);
    if let Some(cell) = grid.at_mut([2, 1]) {
        *cell = 7;
    }
    assert_eq!(grid.at([2, 1]), Some(&7));
    assert_eq!(grid.values(), &vec![0, 0, 0, 0, 0, 7]);
    assert!(grid.at_mut([0, 9]).is_none());
}

#[test]
fn grid_buffer_three_dimensional_strides() {
    let values: Vec<u32> = (0..24).collect();
    let grid = GridBuffer::from_vec(values, [2, 3, 4]);
    assert_eq!(grid.at([1, 2, 3]), Some(&(1 + 2 * 2 + 3 * 6)));
    assert_eq!(grid.shape(), [2, 3, 4]);
}

#[test]
fn grid_buffer_values_mut_keeps_shape() {
    let mut grid = GridBuffer::from_vec(vec![1u8, 2, 3, 4], [2, 2]);
    grid.values_mut().push(5);
    assert_eq!(grid.values().len(), 5);
    assert_eq!(grid.shape(), [2, 2]);
    let copy = grid.clone();
    assert_eq!(copy.values(), grid.values());
}

#[test]
fn grid_buffer_shape_fits() {
    assert!(GridBuffer::<u8, 2>::shape_fits(&[32, 32]));
    assert!(!GridBuffer::<u8, 3>::shape_fits(&[usize::MAX, 2, 1]));
    assert!(GridBuffer::<u8, 2>::shape_fits(&[2, usize::MAX]));
}

#[test]
fn particle_buffer_get_and_write() {
    let mut particles = ParticleBuffer::from_vec(vec![1.5f32, 2.5, 3.5]);
    assert_eq!(particles.shape(), [3]);
    assert_eq!(particles.get([1]), Some(&2.5));
    assert_eq!(particles.get([3]), None);
    if let Some(p) = particles.at_mut([0]) {
        *p = 9.0;
    }
    assert_eq!(particles.get([0]), Some(&9.0));
    assert!(particles.at_mut([7]).is_none());
    assert_eq!(particles.values(), &vec![9.0, 2.5, 3.5]);
}

#[test]
fn grid_buffer_write_leaves_other_cells() {
    let mut grid = GridBuffer::from_vec(vec![0u32; 12], [4, 3]);
    *grid.at_mut([3, 1]).unwrap() = 42;
    for y in 0..3 {
        for x in 0..4 {
            let expected = if (x, y) == (3, 1) { 42 } else { 0 };
            assert_eq!(grid.at([x, y]), Some(&expected));
        }
    }
}
