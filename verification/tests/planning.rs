use mls_mpm::layout::{grid_node_count, split_components, split_matrix_components};
use mls_mpm::step::{cube_count, stage_cube_count, step_stages, LaunchTooLarge, Stage};

#[test]
fn float_atomic_step_stages() {
    assert_eq!(
        step_stages(false),
        vec![Stage::ClearGrid, Stage::ParticleToGrid, Stage::UpdateGrid, Stage::GridToParticle]
    );
}

#[test]
fn integer_atomic_step_stages() {
    assert_eq!(
        step_stages(true),
        vec![
            Stage::ClearGrid,
            Stage::ClearGridI32,
            Stage::ParticleToGridI32,
            Stage::I32ToF32,
            Stage::UpdateGrid,
            Stage::GridToParticle,
        ]
    );
}

#[test]
fn cube_counts_round_up() {
    assert_eq!(cube_count(0), Ok(0));
    assert_eq!(cube_count(1), Ok(1));
    assert_eq!(cube_count(256), Ok(1));
    assert_eq!(cube_count(257), Ok(2));
    assert_eq!(cube_count(1024), Ok(4));
}

#[test]
fn cube_count_too_large() {
    if usize::BITS == 64 {
        assert_eq!(cube_count(usize::MAX), Err(LaunchTooLarge));
    }
}

#[test]
fn stage_counts_follow_their_domain() {
    assert_eq!(stage_cube_count(Stage::ClearGrid, 1024, 10), Ok(4));
    assert_eq!(stage_cube_count(Stage::ParticleToGrid, 1024, 10), Ok(1));
    assert_eq!(stage_cube_count(Stage::GridToParticle, 0, 513), Ok(3));
    assert_eq!(stage_cube_count(Stage::I32ToF32, 300, 0), Ok(2));
    assert!(Stage::ParticleToGridI32.over_particles());
    assert!(!Stage::UpdateGrid.over_particles());
}

#[test]
fn grid_node_counts() {
    assert_eq!(grid_node_count(&[32usize, 32]), Some(1024));
    assert_eq!(grid_node_count(&[4usize, 0, 7]), Some(0));
    assert_eq!(grid_node_count(&[usize::MAX, usize::MAX, 0]), Some(0));
    assert_eq!(grid_node_count(&[usize::MAX, 2]), None);
    assert_eq!(grid_node_count::<0>(&[]), Some(1));
}

#[test]
fn split_vector_components() {
    let items = vec![[1u32, 2], [3, 4], [5, 6]];
    assert_eq!(split_components(&items), vec![vec![1, 3, 5], vec![2, 4, 6]]);
}

#[test]
fn split_matrix_components_by_entry() {
    let items = vec![[[1u32, 2], [3, 4]], [[5, 6], [7, 8]]];
    let cols = split_matrix_components(&items);
    assert_eq!(cols[0][0], vec![1, 5]);
    assert_eq!(cols[0][1], vec![2, 6]);
    assert_eq!(cols[1][0], vec![3, 7]);
    assert_eq!(cols[1][1], vec![4, 8]);
}

#[test]
fn cube_counts_cover_every_item() {
    for len in [1usize, 2, 255, 256, 257, 511, 512, 513, 100_000] {
        let count = cube_count(len).unwrap() as usize;
        assert!(count * 256 >= len);
        assert!((count - 1) * 256 < len);
    }
}
