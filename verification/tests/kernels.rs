use mls_mpm::boundary::apply_boundary;
use mls_mpm::grid_index::{idx_to_pos, is_grid_pos_valid, pos_to_idx};
use mls_mpm::kernel::clear_grid;
use mls_mpm::BoundaryType;

#[test]
fn grid_positions_inside_and_outside() {
    assert!(is_grid_pos_valid((0, 0), (4, 3)));
    assert!(is_grid_pos_valid((3, 2), (4, 3)));
    assert!(!is_grid_pos_valid((4, 2), (4, 3)));
    assert!(!is_grid_pos_valid((3, 3), (4, 3)));
    assert!(!is_grid_pos_valid((-1, 0), (4, 3)));
    assert!(!is_grid_pos_valid((0, -1), (4, 3)));
    assert!(!is_grid_pos_valid((0, 0), (0, 3)));
}

#[test]
fn node_index_roundtrip() {
    let dim = (5usize, 4usize);
    for y in 0..4 {
        for x in 0..5 {
            let idx = pos_to_idx((x, y), dim);
            assert_eq!(idx, (y * 5 + x) as usize);
            assert_eq!(idx_to_pos(idx, dim), (x, y));
        }
    }
    for idx in 0..20usize {
        let pos = idx_to_pos(idx, dim);
        assert!(is_grid_pos_valid(pos, dim));
        assert_eq!(pos_to_idx(pos, dim), idx);
    }
    assert_eq!(idx_to_pos(13, (5, 4)), (3, 2));
}

#[test]
fn boundary_ids() {
    assert_eq!(BoundaryType::Interior.id(), 0);
    assert_eq!(BoundaryType::Sticky.id(), 1);
    assert_eq!(BoundaryType::SlipLeft.id(), 20);
    assert_eq!(BoundaryType::SlipRight.id(), 21);
    assert_eq!(BoundaryType::SlipBottom.id(), 22);
    assert_eq!(BoundaryType::SlipTop.id(), 23);
}

#[test]
fn boundary_rule_per_type() {
    let v = (1.5f32, -2.0f32);
    assert_eq!(apply_boundary(BoundaryType::Interior.id(), v, 0.0), (1.5, -2.0));
    assert_eq!(apply_boundary(BoundaryType::Sticky.id(), v, 0.0), (0.0, 0.0));
    assert_eq!(apply_boundary(BoundaryType::SlipLeft.id(), v, 0.0), (0.0, -2.0));
    assert_eq!(apply_boundary(BoundaryType::SlipRight.id(), v, 0.0), (0.0, -2.0));
    assert_eq!(apply_boundary(BoundaryType::SlipBottom.id(), v, 0.0), (1.5, 0.0));
    assert_eq!(apply_boundary(BoundaryType::SlipTop.id(), v, 0.0), (1.5, 0.0));
    assert_eq!(apply_boundary(7, v, 0.0), (1.5, -2.0));
}

#[test]
fn clear_grid_zeroes_the_grid_nodes_only() {
    let mut mass = vec![1.0f32; 8];
    let mut vx = vec![2.0f32; 8];
    let mut vy = vec![3.0f32; 7];
    clear_grid(&mut mass, &mut vx, &mut vy, (3, 2), 0.0);
    assert_eq!(mass, vec![0.0, 0.0, 0.0, 0.0, 0.0, 0.0, 1.0, 1.0]);
    assert_eq!(vx, vec![0.0, 0.0, 0.0, 0.0, 0.0, 0.0, 2.0, 2.0]);
    assert_eq!(vy, vec![0.0, 0.0, 0.0, 0.0, 0.0, 0.0, 3.0]);
}

#[test]
fn clear_grid_integer_accumulators() {
    let mut mass = vec![5i32; 4];
    let mut vx = vec![-5i32; 4];
    let mut vy = vec![9i32; 4];
    clear_grid(&mut mass, &mut vx, &mut vy, (2, 2), 0);
    assert_eq!(mass, vec![0; 4]);
    assert_eq!(vx, vec![0; 4]);
    assert_eq!(vy, vec![0; 4]);
}

#[test]
fn stencil_at_grid_corner_keeps_nodes_inside() {
    let nodes = mls_mpm::grid_index::stencil_nodes((-1, -1), (4, 4));
    let offsets: Vec<(usize, usize)> = nodes.iter().map(|n| n.offset).collect();
    let indices: Vec<usize> = nodes.iter().map(|n| n.index).collect();
    assert_eq!(offsets, vec![(1, 1), (2, 1), (1, 2), (2, 2)]);
    assert_eq!(indices, vec![0, 1, 4, 5]);
}

#[test]
fn stencil_inside_grid_visits_nine_nodes_in_order() {
    let nodes = mls_mpm::grid_index::stencil_nodes((1, 2), (5, 6));
    let indices: Vec<usize> = nodes.iter().map(|n| n.index).collect();
    assert_eq!(indices, vec![11, 12, 13, 16, 17, 18, 21, 22, 23]);
    assert_eq!(nodes[4].offset, (1, 1));
}

#[test]
fn stencil_outside_grid_is_empty() {
    assert!(mls_mpm::grid_index::stencil_nodes((10, 10), (4, 4)).is_empty());
    assert!(mls_mpm::grid_index::stencil_nodes((-3, 0), (4, 4)).is_empty());
    assert!(mls_mpm::grid_index::stencil_nodes((i32::MAX, 0), (4, 4)).is_empty());
}
