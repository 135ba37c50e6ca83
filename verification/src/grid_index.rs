//! Node indexing of the two-dimensional background grid.
//!
//! Nodes are stored row by row: the node at `(x, y)` lives at flat index
//! `y * width + x`, where `width` is the number of nodes along X.
use vstd::prelude::*;

verus! {

/// A node position `(x, y)` lies inside a grid of `dim.0 x dim.1` nodes.
pub open spec fn pos_in_grid(pos: (int, int), dim: (int, int)) -> bool {
    0 <= pos.0 < dim.0 && 0 <= pos.1 < dim.1
}

/// Flat index of the node at `pos` in a grid whose rows are `dim.0` nodes wide.
pub open spec fn flat_index(pos: (int, int), dim: (int, int)) -> int {
    pos.1 * dim.0 + pos.0
}

/// Position of the node stored at flat index `idx` in rows of `dim.0` nodes.
pub open spec fn node_position(idx: int, dim: (int, int)) -> (int, int) {
    (idx % dim.0, idx / dim.0)
}

/// Number of nodes of a `dim.0 x dim.1` grid.
pub open spec fn node_count(dim: (int, int)) -> int {
    dim.0 * dim.1
}

/// Tells whether the node position `grid_pos` lies inside the grid.
pub fn is_grid_pos_valid(grid_pos: (i32, i32), grid_dim: (usize, usize)) -> (valid: bool)
    ensures
        valid == pos_in_grid(
            (grid_pos.0 as int, grid_pos.1 as int),
            (grid_dim.0 as int, grid_dim.1 as int),
        ),
{
    grid_pos.0 >= 0 && grid_pos.1 >= 0 && (grid_pos.0 as usize) < grid_dim.0 && (grid_pos.1 as usize)
        < grid_dim.1
}

proof fn lemma_flat_index_bounds(x: int, y: int, w: int, h: int)
    by (nonlinear_arith)
    requires
        0 <= x < w,
        0 <= y < h,
    ensures
        0 <= y * w + x < w * h,
{
}

/// Flat buffer index of a node that lies inside the grid.
pub fn pos_to_idx(grid_pos: (i32, i32), grid_dim: (usize, usize)) -> (idx: usize)
    requires
        pos_in_grid((grid_pos.0 as int, grid_pos.1 as int), (grid_dim.0 as int, grid_dim.1 as int)),
        node_count((grid_dim.0 as int, grid_dim.1 as int)) <= usize::MAX,
    ensures
        idx == flat_index((grid_pos.0 as int, grid_pos.1 as int), (grid_dim.0 as int, grid_dim.1 as int)),
        idx < node_count((grid_dim.0 as int, grid_dim.1 as int)),
{
    proof {
        lemma_flat_index_bounds(grid_pos.0 as int, grid_pos.1 as int, grid_dim.0 as int, grid_dim.1 as int);
    }
    (grid_pos.1 as usize) * grid_dim.0 + (grid_pos.0 as usize)
}

/// Node position stored at a flat buffer index.
pub fn idx_to_pos(grid_index: usize, grid_dim: (usize, usize)) -> (pos: (i32, i32))
    requires
        0 < grid_dim.0,
        grid_dim.0 <= i32::MAX + 1,
        (grid_index as int) / (grid_dim.0 as int) <= i32::MAX,
    ensures
        (pos.0 as int, pos.1 as int) == node_position(grid_index as int, (grid_dim.0 as int, grid_dim.1 as int)),
{
    ((grid_index % grid_dim.0) as i32, (grid_index / grid_dim.0) as i32)
}

/// Law: reading back the position of the flat index of a node inside the grid
/// gives that node again.
pub proof fn lemma_pos_idx_roundtrip(pos: (int, int), dim: (int, int))
    requires
        pos_in_grid(pos, dim),
    ensures
        node_position(flat_index(pos, dim), dim) == pos,
        0 <= flat_index(pos, dim) < node_count(dim),
{
    lemma_flat_index_bounds(pos.0, pos.1, dim.0, dim.1);
    vstd::arithmetic::div_mod::lemma_fundamental_div_mod_converse(
        flat_index(pos, dim),
        dim.0,
        pos.1,
        pos.0,
    );
}

/// Law: every flat index of a grid names a node inside the grid, and its flat
/// index is the index we started from.
pub proof fn lemma_idx_pos_roundtrip(idx: int, dim: (int, int))
    requires
        0 <= idx < node_count(dim),
        0 < dim.0,
    ensures
        pos_in_grid(node_position(idx, dim), dim),
        flat_index(node_position(idx, dim), dim) == idx,
{
    let q = idx / dim.0;
    let r = idx % dim.0;
    vstd::arithmetic::div_mod::lemma_fundamental_div_mod(idx, dim.0);
    vstd::arithmetic::div_mod::lemma_mod_pos_bound(idx, dim.0);
    assert(q * dim.0 == dim.0 * q) by (nonlinear_arith);
    assert(0 <= q < dim.1) by (nonlinear_arith)
        requires
            idx == dim.0 * q + r,
            0 <= r < dim.0,
            0 <= idx < dim.0 * dim.1,
    ;
}

/// A grid node reached by a particle's 3x3 interpolation stencil.
#[derive(Debug, Clone, Copy)]
pub struct StencilNode {
    /// Offset `(gx, gy)` of the node from the stencil's bottom-left corner, each in `0..3`.
    pub offset: (usize, usize),
    /// Flat index of the node in the grid buffers.
    pub index: usize,
}

/// Rank of a stencil offset in the kernels' visiting order: rows bottom to top,
/// each row left to right.
pub open spec fn stencil_rank(offset: (usize, usize)) -> int {
    offset.1 * 3 + offset.0
}

/// The node at `offset` from the stencil corner `origin` lies inside the grid.
pub open spec fn stencil_node_in_grid(origin: (i32, i32), offset: (int, int), dim: (usize, usize)) -> bool {
    pos_in_grid((origin.0 + offset.0, origin.1 + offset.1), (dim.0 as int, dim.1 as int))
}

/// The nodes of the 3x3 stencil with bottom-left corner `origin` that lie inside
/// the grid, in the order the transfer kernels visit them (rows bottom to top,
/// each row left to right), with their flat indices.
pub fn stencil_nodes(origin: (i32, i32), grid_dim: (usize, usize)) -> (nodes: Vec<StencilNode>)
    requires
        node_count((grid_dim.0 as int, grid_dim.1 as int)) <= usize::MAX,
    ensures
        forall|k: int|
            0 <= k < nodes@.len() ==> {
                let n = #[trigger] nodes@[k];
                &&& n.offset.0 < 3 && n.offset.1 < 3
                &&& stencil_node_in_grid(origin, (n.offset.0 as int, n.offset.1 as int), grid_dim)
                &&& n.index == flat_index(
                    (origin.0 + n.offset.0, origin.1 + n.offset.1),
                    (grid_dim.0 as int, grid_dim.1 as int),
                )
            },
        forall|i: int, j: int|
            0 <= i < j < nodes@.len() ==> stencil_rank(#[trigger] nodes@[i].offset) < stencil_rank(
                #[trigger] nodes@[j].offset,
            ),
        forall|gx: usize, gy: usize|
            gx < 3 && gy < 3 && stencil_node_in_grid(origin, (gx as int, gy as int), grid_dim) ==> exists|
                k: int,
            |
                0 <= k < nodes@.len() && (#[trigger] nodes@[k].offset) == (gx, gy),
{
    let mut nodes: Vec<StencilNode> = Vec::new();
    let mut gy: usize = 0;
    while gy < 3
        invariant
            0 <= gy <= 3,
            node_count((grid_dim.0 as int, grid_dim.1 as int)) <= usize::MAX,
            forall|k: int|
                0 <= k < nodes@.len() ==> {
                    let n = #[trigger] nodes@[k];
                    &&& n.offset.0 < 3 && n.offset.1 < gy
                    &&& stencil_node_in_grid(origin, (n.offset.0 as int, n.offset.1 as int), grid_dim)
                    &&& n.index == flat_index(
                        (origin.0 + n.offset.0, origin.1 + n.offset.1),
                        (grid_dim.0 as int, grid_dim.1 as int),
                    )
                },
            forall|i: int, j: int|
                0 <= i < j < nodes@.len() ==> stencil_rank(#[trigger] nodes@[i].offset) < stencil_rank(
                    #[trigger] nodes@[j].offset,
                ),
            forall|x: usize, y: usize|
                x < 3 && y < gy && stencil_node_in_grid(origin, (x as int, y as int), grid_dim) ==> exists|
                    k: int,
                |
                    0 <= k < nodes@.len() && (#[trigger] nodes@[k].offset) == (x, y),
        decreases 3 - gy,
    {
        let mut gx: usize = 0;
        while gx < 3
            invariant
                0 <= gx <= 3,
                0 <= gy < 3,
                node_count((grid_dim.0 as int, grid_dim.1 as int)) <= usize::MAX,
                forall|k: int|
                    0 <= k < nodes@.len() ==> {
                        let n = #[trigger] nodes@[k];
                        &&& n.offset.0 < 3 && n.offset.1 <= gy
                        &&& (n.offset.1 == gy ==> n.offset.0 < gx)
                        &&& stencil_node_in_grid(origin, (n.offset.0 as int, n.offset.1 as int), grid_dim)
                        &&& n.index == flat_index(
                            (origin.0 + n.offset.0, origin.1 + n.offset.1),
                            (grid_dim.0 as int, grid_dim.1 as int),
                        )
                    },
                forall|i: int, j: int|
                    0 <= i < j < nodes@.len() ==> stencil_rank(#[trigger] nodes@[i].offset)
                        < stencil_rank(#[trigger] nodes@[j].offset),
                forall|x: usize, y: usize|
                    x < 3 && (y < gy || (y == gy && x < gx)) && stencil_node_in_grid(
                        origin,
                        (x as int, y as int),
                        grid_dim,
                    ) ==> exists|k: int| 0 <= k < nodes@.len() && (#[trigger] nodes@[k].offset) == (x, y),
            decreases 3 - gx,
        {
            let x: i64 = origin.0 as i64 + gx as i64;
            let y: i64 = origin.1 as i64 + gy as i64;
            if x >= 0 && y >= 0 && (x as u64 as usize) < grid_dim.0 && (y as u64 as usize) < grid_dim.1 {
                proof {
                    lemma_flat_index_bounds(x as int, y as int, grid_dim.0 as int, grid_dim.1 as int);
                }
                let index = (y as u64 as usize) * grid_dim.0 + (x as u64 as usize);
                let ghost old_nodes = nodes@;
                nodes.push(StencilNode { offset: (gx, gy), index });
                proof {
                    assert(nodes@[nodes@.len() - 1].offset == (gx, gy));
                    assert forall|i: int, j: int|
                        0 <= i < j < nodes@.len() implies stencil_rank(#[trigger] nodes@[i].offset)
                        < stencil_rank(#[trigger] nodes@[j].offset) by {
                        if j == nodes@.len() - 1 {
                            assert(nodes@[i] == old_nodes[i]);
                        }
                    }
                    assert forall|a: usize, b: usize|
                        a < 3 && (b < gy || (b == gy && a < gx + 1)) && stencil_node_in_grid(
                            origin,
                            (a as int, b as int),
                            grid_dim,
                        ) implies exists|k: int|
                        0 <= k < nodes@.len() && (#[trigger] nodes@[k].offset) == (a, b) by {
                        if a == gx && b == gy {
                            assert(nodes@[nodes@.len() - 1].offset == (a, b));
                        } else {
                            let k = choose|k: int| 0 <= k < old_nodes.len() && (#[trigger] old_nodes[k].offset) == (a, b);
                            assert(nodes@[k] == old_nodes[k]);
                        }
                    }
                }
            }
            gx = gx + 1;
        }
        gy = gy + 1;
    }
    nodes
}

/// Law: distinct nodes of one stencil that lie inside the grid have distinct flat
/// indices, so a particle reaches each grid cell at most once per transfer.
pub proof fn lemma_stencil_indices_distinct(
    origin: (i32, i32),
    a: (int, int),
    b: (int, int),
    dim: (usize, usize),
)
    requires
        stencil_node_in_grid(origin, a, dim),
        stencil_node_in_grid(origin, b, dim),
        a != b,
    ensures
        flat_index((origin.0 + a.0, origin.1 + a.1), (dim.0 as int, dim.1 as int)) != flat_index(
            (origin.0 + b.0, origin.1 + b.1),
            (dim.0 as int, dim.1 as int),
        ),
{
    let d = (dim.0 as int, dim.1 as int);
    lemma_pos_idx_roundtrip((origin.0 + a.0, origin.1 + a.1), d);
    lemma_pos_idx_roundtrip((origin.0 + b.0, origin.1 + b.1), d);
}

} // verus!
