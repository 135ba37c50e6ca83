//! Conversions between per-item records and per-component buffers.
//!
//! The simulator keeps every vector or matrix attribute as one buffer per
//! component (structure of arrays). These functions split lists of records into
//! such buffers and size the grid buffers.
use vstd::prelude::*;
use crate::grid_buffer::prefix_product;

verus! {

broadcast use vstd::array::group_array_axioms;

/// The number of nodes of a grid with the given extents, if it fits in a `usize`.
pub fn grid_node_count<const DIM: usize>(grid_dim: &[usize; DIM]) -> (r: Option<usize>)
    ensures
        match r {
            Some(n) => n == prefix_product(grid_dim@, DIM as int),
            None => prefix_product(grid_dim@, DIM as int) > usize::MAX,
        },
{
    let mut k: usize = 0;
    while k < DIM
        invariant
            0 <= k <= DIM,
            forall|j: int| 0 <= j < k ==> grid_dim@[j] != 0,
        decreases DIM - k,
    {
        if grid_dim[k] == 0 {
            proof {
                lemma_prefix_product_zero(grid_dim@, k as int, DIM as int);
            }
            return Some(0);
        }
        k = k + 1;
    }
    let mut product: usize = 1;
    let mut i: usize = 0;
    while i < DIM
        invariant
            0 <= i <= DIM,
            forall|j: int| 0 <= j < DIM ==> grid_dim@[j] != 0,
            product == prefix_product(grid_dim@, i as int),
        decreases DIM - i,
    {
        match product.checked_mul(grid_dim[i]) {
            Some(p) => {
                product = p;
            },
            None => {
                proof {
                    lemma_prefix_product_grows(grid_dim@, i + 1, DIM as int);
                }
                return None;
            },
        }
        i = i + 1;
    }
    Some(product)
}

proof fn lemma_prefix_product_zero(shape: Seq<usize>, z: int, k: int)
    requires
        0 <= z < k,
        shape[z] == 0,
    ensures
        prefix_product(shape, k) == 0,
    decreases k,
{
    if k - 1 > z {
        lemma_prefix_product_zero(shape, z, k - 1);
    }
}

proof fn lemma_prefix_product_grows(shape: Seq<usize>, j: int, k: int)
    requires
        0 <= j <= k <= shape.len(),
        forall|i: int| 0 <= i < shape.len() ==> shape[i] != 0,
    ensures
        prefix_product(shape, j) <= prefix_product(shape, k),
        prefix_product(shape, j) >= 1,
    decreases k,
{
    if k > j {
        lemma_prefix_product_grows(shape, j, k - 1);
        let p = prefix_product(shape, k - 1);
        let d = shape[k - 1] as int;
        assert(p * d >= p) by (nonlinear_arith)
            requires p >= 1, d >= 1;
    } else if j > 0 {
        lemma_prefix_product_grows(shape, j - 1, j - 1);
        let p = prefix_product(shape, j - 1);
        let d = shape[j - 1] as int;
        assert(p * d >= 1) by (nonlinear_arith)
            requires p >= 1, d >= 1;
    }
}

/// Splits records of `N` components into `N` buffers: buffer `c` holds component
/// `c` of every record, in record order.
pub fn split_components<T: Copy, const N: usize>(items: &Vec<[T; N]>) -> (columns: Vec<Vec<T>>)
    ensures
        columns@.len() == N,
        forall|c: int| 0 <= c < N ==> #[trigger] columns@[c]@.len() == items@.len(),
        forall|c: int, p: int|
            0 <= c < N && 0 <= p < items@.len() ==> #[trigger] columns@[c]@[p] == items@[p]@[c],
{
    let n = items.len();
    let mut columns: Vec<Vec<T>> = Vec::new();
    let mut c: usize = 0;
    while c < N
        invariant
            0 <= c <= N,
            n == items@.len(),
            columns@.len() == c,
            forall|k: int| 0 <= k < c ==> #[trigger] columns@[k]@.len() == n,
            forall|k: int, p: int|
                0 <= k < c && 0 <= p < n ==> #[trigger] columns@[k]@[p] == items@[p]@[k],
        decreases N - c,
    {
        let mut column: Vec<T> = Vec::new();
        let mut p: usize = 0;
        while p < n
            invariant
                0 <= p <= n,
                0 <= c < N,
                n == items@.len(),
                column@.len() == p,
                forall|q: int| 0 <= q < p ==> #[trigger] column@[q] == items@[q]@[c as int],
            decreases n - p,
        {
            column.push(items[p][c]);
            p = p + 1;
        }
        columns.push(column);
        c = c + 1;
    }
    columns
}

/// Splits records of `N x N` components into `N x N` buffers: buffer `(r, c)`
/// holds component `(r, c)` of every record, in record order.
pub fn split_matrix_components<T: Copy, const N: usize>(items: &Vec<[[T; N]; N]>) -> (columns: Vec<
    Vec<Vec<T>>,
>)
    ensures
        columns@.len() == N,
        forall|r: int| 0 <= r < N ==> #[trigger] columns@[r]@.len() == N,
        forall|r: int, c: int| 0 <= r < N && 0 <= c < N ==> #[trigger] columns@[r]@[c]@.len() == items@.len(),
        forall|r: int, c: int, p: int|
            0 <= r < N && 0 <= c < N && 0 <= p < items@.len() ==> #[trigger] columns@[r]@[c]@[p]
                == items@[p]@[r]@[c],
{
    let n = items.len();
    let mut columns: Vec<Vec<Vec<T>>> = Vec::new();
    let mut r: usize = 0;
    while r < N
        invariant
            0 <= r <= N,
            n == items@.len(),
            columns@.len() == r,
            forall|k: int| 0 <= k < r ==> #[trigger] columns@[k]@.len() == N,
            forall|k: int, c: int| 0 <= k < r && 0 <= c < N ==> #[trigger] columns@[k]@[c]@.len() == n,
            forall|k: int, c: int, p: int|
                0 <= k < r && 0 <= c < N && 0 <= p < n ==> #[trigger] columns@[k]@[c]@[p]
                    == items@[p]@[k]@[c],
        decreases N - r,
    {
        let mut rows: Vec<[T; N]> = Vec::new();
        let mut p: usize = 0;
        while p < n
            invariant
                0 <= p <= n,
                0 <= r < N,
                n == items@.len(),
                rows@.len() == p,
                forall|q: int| 0 <= q < p ==> #[trigger] rows@[q] == items@[q]@[r as int],
            decreases n - p,
        {
            rows.push(items[p][r]);
            p = p + 1;
        }
        let row_columns = split_components(&rows);
        columns.push(row_columns);
        r = r + 1;
    }
    columns
}

} // verus!
