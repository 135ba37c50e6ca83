//! Host-side buffers of grid node attributes.
//!
//! A `GridBuffer` holds one value per grid node in a flat vector together with
//! the grid's shape. Positions are laid out with the first axis varying fastest:
//! the stride of axis `i` is the product of the extents of the axes before it.
//! A position with a coordinate outside its axis names no node and has no value.
use vstd::prelude::*;
use crate::grid_index::flat_index;

verus! {

broadcast use vstd::array::group_array_axioms;

/// Product of the first `k` extents of `shape`: the stride of axis `k`.
pub open spec fn prefix_product(shape: Seq<usize>, k: int) -> int
    decreases k,
{
    if k <= 0 {
        1
    } else {
        prefix_product(shape, k - 1) * shape[k - 1]
    }
}

/// Flat index of the first `k` coordinates of `pos` in a grid of the given shape:
/// the sum of `pos[i] * prefix_product(shape, i)` over `i < k`.
pub open spec fn partial_offset(pos: Seq<usize>, shape: Seq<usize>, k: int) -> int
    decreases k,
{
    if k <= 0 {
        0
    } else {
        partial_offset(pos, shape, k - 1) + pos[k - 1] * prefix_product(shape, k - 1)
    }
}

/// Flat index of the position `pos` in a grid of the given shape.
pub open spec fn grid_offset(pos: Seq<usize>, shape: Seq<usize>) -> int {
    partial_offset(pos, shape, shape.len() as int)
}

/// Every stride of a grid of this shape fits in a `usize`.
pub open spec fn strides_fit(shape: Seq<usize>) -> bool {
    forall|i: int| 0 <= i < shape.len() ==> #[trigger] prefix_product(shape, i) <= usize::MAX
}

proof fn lemma_prefix_product_nonneg(shape: Seq<usize>, k: int)
    ensures
        prefix_product(shape, k) >= 0,
    decreases k,
{
    if k > 0 {
        lemma_prefix_product_nonneg(shape, k - 1);
        vstd::arithmetic::mul::lemma_mul_nonnegative(prefix_product(shape, k - 1), shape[k - 1] as int);
    }
}

proof fn lemma_partial_offset_nonneg(pos: Seq<usize>, shape: Seq<usize>, k: int)
    ensures
        0 <= partial_offset(pos, shape, k),
    decreases k,
{
    if k > 0 {
        lemma_partial_offset_nonneg(pos, shape, k - 1);
        lemma_prefix_product_nonneg(shape, k - 1);
        vstd::arithmetic::mul::lemma_mul_nonnegative(pos[k - 1] as int, prefix_product(shape, k - 1));
    }
}

proof fn lemma_partial_offset_monotone(pos: Seq<usize>, shape: Seq<usize>, j: int, k: int)
    requires
        0 <= j <= k,
    ensures
        0 <= partial_offset(pos, shape, j) <= partial_offset(pos, shape, k),
    decreases k - j,
{
    lemma_partial_offset_nonneg(pos, shape, j);
    if j < k {
        lemma_partial_offset_monotone(pos, shape, j, k - 1);
        lemma_prefix_product_nonneg(shape, k - 1);
        vstd::arithmetic::mul::lemma_mul_nonnegative(pos[k - 1] as int, prefix_product(shape, k - 1));
    }
}

/// Every coordinate of `pos` lies inside the extent of its axis.
pub open spec fn pos_in_shape(pos: Seq<usize>, shape: Seq<usize>) -> bool {
    &&& pos.len() == shape.len()
    &&& forall|i: int| 0 <= i < shape.len() ==> #[trigger] pos[i] < shape[i]
}

proof fn lemma_partial_offset_below(pos: Seq<usize>, shape: Seq<usize>, k: int)
    requires
        0 <= k <= shape.len(),
        pos_in_shape(pos, shape),
    ensures
        0 <= partial_offset(pos, shape, k) < prefix_product(shape, k),
    decreases k,
{
    lemma_partial_offset_nonneg(pos, shape, k);
    if k > 0 {
        lemma_partial_offset_below(pos, shape, k - 1);
        let a = partial_offset(pos, shape, k - 1);
        let b = pos[k - 1] as int;
        let p = prefix_product(shape, k - 1);
        let d = shape[k - 1] as int;
        assert(pos[k - 1] < shape[k - 1]);
        assert(a + b * p < p * d) by (nonlinear_arith)
            requires 0 <= a < p, 0 <= b < d;
    }
}

proof fn lemma_partial_offset_injective(pos: Seq<usize>, other: Seq<usize>, shape: Seq<usize>, k: int)
    requires
        0 <= k <= shape.len(),
        pos_in_shape(pos, shape),
        pos_in_shape(other, shape),
        partial_offset(pos, shape, k) == partial_offset(other, shape, k),
    ensures
        forall|i: int| 0 <= i < k ==> pos[i] == other[i],
    decreases k,
{
    if k > 0 {
        lemma_partial_offset_below(pos, shape, k - 1);
        lemma_partial_offset_below(other, shape, k - 1);
        let p = prefix_product(shape, k - 1);
        let a = partial_offset(pos, shape, k - 1);
        let a2 = partial_offset(other, shape, k - 1);
        let b = pos[k - 1] as int;
        let b2 = other[k - 1] as int;
        assert(a + b * p == a + p * b) by (nonlinear_arith);
        assert(a2 + b2 * p == a2 + p * b2) by (nonlinear_arith);
        vstd::arithmetic::div_mod::lemma_fundamental_div_mod_converse(a + p * b, p, b, a);
        vstd::arithmetic::div_mod::lemma_fundamental_div_mod_converse(a2 + p * b2, p, b2, a2);
        lemma_partial_offset_injective(pos, other, shape, k - 1);
    }
}

/// Law: in two dimensions a grid buffer stores the node `(x, y)` at the flat index
/// the transfer kernels use for it, `y * width + x`.
pub proof fn lemma_offset_is_node_index(pos: Seq<usize>, shape: Seq<usize>)
    requires
        pos.len() == 2,
        shape.len() == 2,
    ensures
        grid_offset(pos, shape) == flat_index(
            (pos[0] as int, pos[1] as int),
            (shape[0] as int, shape[1] as int),
        ),
{
    reveal_with_fuel(partial_offset, 3);
    reveal_with_fuel(prefix_product, 3);
}

/// Law: every position inside the shape has a flat index below the number of grid
/// nodes, and distinct positions inside the shape have distinct flat indices, so
/// each node of the grid has a cell of its own.
pub proof fn lemma_offset_in_shape(pos: Seq<usize>, other: Seq<usize>, shape: Seq<usize>)
    requires
        pos_in_shape(pos, shape),
        pos_in_shape(other, shape),
    ensures
        0 <= grid_offset(pos, shape) < prefix_product(shape, shape.len() as int),
        grid_offset(pos, shape) == grid_offset(other, shape) <==> pos == other,
{
    lemma_partial_offset_below(pos, shape, shape.len() as int);
    if grid_offset(pos, shape) == grid_offset(other, shape) {
        lemma_partial_offset_injective(pos, other, shape, shape.len() as int);
        assert(pos =~= other);
    }
}

/// Law: writing the cell of one position inside the shape (as `at_mut` does) and
/// reading back: the written position gives the new value and every other position
/// inside the shape gives its old value.
pub proof fn lemma_write_one_cell<T>(values: Seq<T>, shape: Seq<usize>, pos: Seq<usize>, other: Seq<usize>, v: T)
    requires
        pos_in_shape(pos, shape),
        pos_in_shape(other, shape),
        grid_offset(pos, shape) < values.len(),
        grid_offset(other, shape) < values.len(),
    ensures
        values.update(grid_offset(pos, shape), v)[grid_offset(pos, shape)] == v,
        other != pos ==> values.update(grid_offset(pos, shape), v)[grid_offset(other, shape)]
            == values[grid_offset(other, shape)],
{
    lemma_offset_in_shape(pos, other, shape);
    lemma_offset_in_shape(other, pos, shape);
}

fn borrow_values<T>(value: &mut Vec<T>) -> (r: &mut Vec<T>)
    ensures
        *r == *old(value),
        *final(value) == *final(r),
    no_unwind
{
    value
}

/// A buffer of one value per node of a `DIM`-dimensional grid.
#[derive(Debug)]
pub struct GridBuffer<T, const DIM: usize> {
    value: Vec<T>,
    shape: [usize; DIM],
    strides: [usize; DIM],
}

impl<T, const DIM: usize> GridBuffer<T, DIM> {
    /// The strides are the prefix products of the shape.
    #[verifier::type_invariant]
    spec fn strides_match_shape(self) -> bool {
        forall|i: int| 0 <= i < DIM ==> #[trigger] self.strides@[i] == prefix_product(self.shape@, i)
    }

    /// The values of the buffer, in flat order.
    pub closed spec fn values_view(self) -> Seq<T> {
        self.value@
    }

    /// The shape of the grid.
    pub closed spec fn shape_view(self) -> Seq<usize> {
        self.shape@
    }

    /// Tells whether every stride of a grid of this shape fits in a `usize`, which
    /// `from_vec` needs.
    pub fn shape_fits(shape: &[usize; DIM]) -> (fits: bool)
        ensures
            fits == strides_fit(shape@),
    {
        if DIM == 0 {
            return true;
        }
        let mut stride: usize = 1;
        let mut i: usize = 1;
        while i < DIM
            invariant
                1 <= i <= DIM,
                stride == prefix_product(shape@, (i - 1) as int),
                forall|k: int| 0 <= k < i ==> #[trigger] prefix_product(shape@, k) <= usize::MAX,
            decreases DIM - i,
        {
            assert(prefix_product(shape@, i as int) == prefix_product(shape@, i - 1) * shape@[i - 1]);
            match stride.checked_mul(shape[i - 1]) {
                Some(s) => {
                    stride = s;
                },
                None => {
                    return false;
                },
            }
            i = i + 1;
        }
        true
    }

    /// Creates a buffer from flat values and the grid shape.
    pub fn from_vec(value: Vec<T>, shape: [usize; DIM]) -> (buffer: Self)
        requires
            strides_fit(shape@),
        ensures
            buffer.values_view() == value@,
            buffer.shape_view() == shape@,
    {
        let mut strides = [1usize; DIM];
        let mut i: usize = 1;
        while i < DIM
            invariant
                1 <= i <= DIM || DIM == 0,
                strides_fit(shape@),
                forall|k: int| 0 <= k < i && k < DIM ==> #[trigger] strides@[k] == prefix_product(shape@, k),
            decreases DIM - i,
        {
            assert(prefix_product(shape@, i as int) <= usize::MAX);
            assert(prefix_product(shape@, i as int) == prefix_product(shape@, i - 1) * shape@[i - 1]);
            strides[i] = strides[i - 1] * shape[i - 1];
            i = i + 1;
        }
        GridBuffer { value, shape, strides }
    }

    fn offset_of(&self, pos: &[usize; DIM]) -> (offset: Option<usize>)
        ensures
            match offset {
                Some(o) => o == grid_offset(pos@, self.shape@),
                None => grid_offset(pos@, self.shape@) > usize::MAX,
            },
    {
        proof {
            use_type_invariant(self);
        }
        let mut sum: usize = 0;
        let mut i: usize = 0;
        while i < DIM
            invariant
                0 <= i <= DIM,
                sum == partial_offset(pos@, self.shape@, i as int),
                forall|k: int| 0 <= k < DIM ==> #[trigger] self.strides@[k] == prefix_product(self.shape@, k),
            decreases DIM - i,
        {
            let term = pos[i].checked_mul(self.strides[i]);
            match term {
                Some(t) => {
                    match sum.checked_add(t) {
                        Some(s) => {
                            sum = s;
                        },
                        None => {
                            proof {
                                lemma_partial_offset_monotone(pos@, self.shape@, i + 1, DIM as int);
                            }
                            return None;
                        },
                    }
                },
                None => {
                    proof {
                        lemma_partial_offset_monotone(pos@, self.shape@, i as int, DIM as int);
                        lemma_partial_offset_monotone(pos@, self.shape@, i + 1, DIM as int);
                    }
                    return None;
                },
            }
            i = i + 1;
        }
        Some(sum)
    }

    fn in_shape(&self, pos: &[usize; DIM]) -> (inside: bool)
        ensures
            inside == pos_in_shape(pos@, self.shape_view()),
    {
        let mut i: usize = 0;
        while i < DIM
            invariant
                0 <= i <= DIM,
                forall|k: int| 0 <= k < i ==> #[trigger] pos@[k] < self.shape@[k],
            decreases DIM - i,
        {
            if pos[i] >= self.shape[i] {
                return false;
            }
            i = i + 1;
        }
        true
    }

    /// Returns the value at the given grid position: `None` when a coordinate lies
    /// outside its axis or the buffer holds no value for that node.
    pub fn at(&self, pos: [usize; DIM]) -> (r: Option<&T>)
        ensures
            pos_in_shape(pos@, self.shape_view()) && grid_offset(pos@, self.shape_view())
                < self.values_view().len() ==> r == Some(
                &self.values_view()[grid_offset(pos@, self.shape_view())],
            ),
            !pos_in_shape(pos@, self.shape_view()) || grid_offset(pos@, self.shape_view())
                >= self.values_view().len() ==> r is None,
    {
        if !self.in_shape(&pos) {
            return None;
        }
        let len = self.value.len();
        match self.offset_of(&pos) {
            Some(o) => {
                if o < len {
                    Some(&self.value[o])
                } else {
                    None
                }
            },
            None => None,
        }
    }

    /// Returns a mutable reference to the value at the given grid position: `None`,
    /// with the buffer unchanged, when a coordinate lies outside its axis or the
    /// buffer holds no value for that node.
    pub fn at_mut(&mut self, pos: [usize; DIM]) -> (r: Option<&mut T>)
        ensures
            final(self).shape_view() == old(self).shape_view(),
            pos_in_shape(pos@, old(self).shape_view()) && grid_offset(pos@, old(self).shape_view())
                < old(self).values_view().len() ==> {
                &&& r is Some
                &&& *r->0 == old(self).values_view()[grid_offset(pos@, old(self).shape_view())]
                &&& final(self).values_view() == old(self).values_view().update(
                    grid_offset(pos@, old(self).shape_view()),
                    *final(r->0),
                )
            },
            !pos_in_shape(pos@, old(self).shape_view()) || grid_offset(pos@, old(self).shape_view())
                >= old(self).values_view().len() ==> {
                &&& r is None
                &&& final(self).values_view() == old(self).values_view()
            },
    {
        proof {
            use_type_invariant(&*self);
        }
        if !self.in_shape(&pos) {
            return None;
        }
        let len = self.value.len();
        match self.offset_of(&pos) {
            Some(o) => {
                if o < len {
                    Some(&mut self.value[o])
                } else {
                    None
                }
            },
            None => None,
        }
    }

    /// The values of the buffer, in flat order.
    pub fn values(&self) -> (values: &Vec<T>)
        ensures
            values@ == self.values_view(),
    {
        &self.value
    }

    /// Mutable access to the values of the buffer; the shape stays as it is.
    pub fn values_mut(&mut self) -> (values: &mut Vec<T>)
        ensures
            values@ == old(self).values_view(),
            final(self).values_view() == final(values)@,
            final(self).shape_view() == old(self).shape_view(),
    {
        proof {
            use_type_invariant(&*self);
        }
        borrow_values(&mut self.value)
    }

    /// Returns the shape of the grid.
    pub fn shape(&self) -> (shape: [usize; DIM])
        ensures
            shape@ == self.shape_view(),
    {
        self.shape
    }
}

impl<T: Clone, const DIM: usize> Clone for GridBuffer<T, DIM> {
    /// A copy of the buffer: the same shape and clones of the values.
    fn clone(&self) -> (copy: Self)
        ensures
            copy.shape_view() == self.shape_view(),
            copy.values_view().len() == self.values_view().len(),
            forall|i: int|
                0 <= i < self.values_view().len() ==> cloned::<T>(
                    #[trigger] self.values_view()[i],
                    copy.values_view()[i],
                ),
    {
        proof {
            use_type_invariant(self);
        }
        GridBuffer { value: self.value.clone(), shape: self.shape, strides: self.strides }
    }
}

} // verus!
