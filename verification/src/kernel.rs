//! Host reference of the grid-clearing stage of a simulation step.
use vstd::prelude::*;
use crate::grid_index::node_count;

verus! {

/// Clears the mass and momentum buffers of the grid nodes: the first
/// `dim_grids.0 * dim_grids.1` entries of each buffer become `zero`, the rest stay
/// as they are.
pub fn clear_grid<T: Copy>(
    g_mass: &mut Vec<T>,
    g_velocity_x: &mut Vec<T>,
    g_velocity_y: &mut Vec<T>,
    dim_grids: (usize, usize),
    zero: T,
)
    requires
        node_count((dim_grids.0 as int, dim_grids.1 as int)) <= usize::MAX,
        old(g_mass)@.len() >= node_count((dim_grids.0 as int, dim_grids.1 as int)),
        old(g_velocity_x)@.len() >= node_count((dim_grids.0 as int, dim_grids.1 as int)),
        old(g_velocity_y)@.len() >= node_count((dim_grids.0 as int, dim_grids.1 as int)),
    ensures
        final(g_mass)@ == cleared(old(g_mass)@, node_count((dim_grids.0 as int, dim_grids.1 as int)), zero),
        final(g_velocity_x)@ == cleared(
            old(g_velocity_x)@,
            node_count((dim_grids.0 as int, dim_grids.1 as int)),
            zero,
        ),
        final(g_velocity_y)@ == cleared(
            old(g_velocity_y)@,
            node_count((dim_grids.0 as int, dim_grids.1 as int)),
            zero,
        ),
{
    let num_grids = dim_grids.0 * dim_grids.1;
    let mut j: usize = 0;
    while j < num_grids
        invariant
            0 <= j <= num_grids,
            num_grids == node_count((dim_grids.0 as int, dim_grids.1 as int)),
            g_mass@.len() == old(g_mass)@.len(),
            g_velocity_x@.len() == old(g_velocity_x)@.len(),
            g_velocity_y@.len() == old(g_velocity_y)@.len(),
            num_grids <= g_mass@.len(),
            num_grids <= g_velocity_x@.len(),
            num_grids <= g_velocity_y@.len(),
            g_mass@ == cleared(old(g_mass)@, j as int, zero),
            g_velocity_x@ == cleared(old(g_velocity_x)@, j as int, zero),
            g_velocity_y@ == cleared(old(g_velocity_y)@, j as int, zero),
        decreases num_grids - j,
    {
        g_mass.set(j, zero);
        g_velocity_x.set(j, zero);
        g_velocity_y.set(j, zero);
        j = j + 1;
        assert(g_mass@ =~= cleared(old(g_mass)@, j as int, zero));
        assert(g_velocity_x@ =~= cleared(old(g_velocity_x)@, j as int, zero));
        assert(g_velocity_y@ =~= cleared(old(g_velocity_y)@, j as int, zero));
    }
}

/// `values` with its first `n` entries replaced by `zero`.
pub open spec fn cleared<T>(values: Seq<T>, n: int, zero: T) -> Seq<T> {
    Seq::new(values.len(), |i: int| if i < n { zero } else { values[i] })
}

} // verus!
