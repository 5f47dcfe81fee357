//! Shapes of tensors as sequences of axis lengths, and the rules by which
//! the tensor engine combines them.

use vstd::prelude::*;

verus! {

/// The product of the first `n` axis lengths of `dims`.
pub open spec fn prefix_product(dims: Seq<usize>, n: int) -> int
    decreases n,
{
    if n <= 0 {
        1
    } else {
        prefix_product(dims, n - 1) * dims[n - 1]
    }
}

/// The product of the last `n` axis lengths of `dims`.
pub open spec fn suffix_product(dims: Seq<usize>, n: int) -> int
    decreases n,
{
    if n <= 0 {
        1
    } else {
        suffix_product(dims, n - 1) * dims[dims.len() - n]
    }
}

/// Every running product of the axis lengths is a machine integer, taken
/// from the first axis on and taken from the last axis on. The engine
/// multiplies from the first axis when it counts the elements of a shape,
/// and from the last when it lays out a fresh tensor.
pub open spec fn dims_fit(dims: Seq<usize>) -> bool {
    &&& forall|n: int| 0 <= n <= dims.len() ==> #[trigger] prefix_product(dims, n) <= usize::MAX
    &&& forall|n: int| 0 <= n <= dims.len() ==> #[trigger] suffix_product(dims, n) <= usize::MAX
}

/// The length of the axis `i` places before the last one, or 1 where the
/// shape has no such axis.
pub open spec fn axis_from_end(dims: Seq<usize>, i: int) -> usize {
    if 0 <= i < dims.len() {
        dims[dims.len() - 1 - i]
    } else {
        1
    }
}

pub open spec fn max_rank(a: Seq<usize>, b: Seq<usize>) -> nat {
    if a.len() >= b.len() {
        a.len()
    } else {
        b.len()
    }
}

/// Two shapes can be broadcast against each other: aligned at the last
/// axis, each pair of lengths is equal or one of the two is 1.
pub open spec fn broadcast_compatible(a: Seq<usize>, b: Seq<usize>) -> bool {
    forall|i: int|
        0 <= i < max_rank(a, b) ==> {
            ||| #[trigger] axis_from_end(a, i) == axis_from_end(b, i)
            ||| axis_from_end(a, i) == 1
            ||| axis_from_end(b, i) == 1
        }
}

/// The shape that two compatible shapes broadcast to.
pub open spec fn broadcast_dims(a: Seq<usize>, b: Seq<usize>) -> Seq<usize> {
    Seq::new(
        max_rank(a, b),
        |j: int|
            if axis_from_end(a, max_rank(a, b) - 1 - j) == 1 {
                axis_from_end(b, max_rank(a, b) - 1 - j)
            } else {
                axis_from_end(a, max_rank(a, b) - 1 - j)
            },
    )
}

/// The shape of a linear transform's output: the input's shape with its last
/// axis replaced by the number of output features.
pub open spec fn linear_out_dims(x: Seq<usize>, out_features: usize) -> Seq<usize> {
    x.drop_last().push(out_features)
}

/// For a `[batch, sequence, adapters]` tensor: the shape of one adapter's
/// column.
pub open spec fn column_dims(dims: Seq<usize>) -> Seq<usize> {
    seq![dims[0], dims[1]]
}

/// For a `[batch, sequence, adapters]` tensor with row-major elements
/// `elems`: the elements of adapter `k`, one for each position.
pub open spec fn column_elems(dims: Seq<usize>, elems: Seq<u64>, k: int) -> Seq<u64> {
    Seq::new((dims[0] * dims[1]) as nat, |j: int| elems[j * dims[2] + k])
}

/// For a `[batch, sequence, layers, adapters]` tensor: the shape of one
/// layer's slice.
pub open spec fn layer_dims(dims: Seq<usize>) -> Seq<usize> {
    seq![dims[0], dims[1], dims[3]]
}

/// For a `[batch, sequence, layers, adapters]` tensor with row-major
/// elements `elems`: the elements of layer `l`, for each position the
/// adapters in order.
pub open spec fn layer_elems(dims: Seq<usize>, elems: Seq<u64>, l: int) -> Seq<u64> {
    Seq::new(
        (dims[0] * dims[1] * dims[3]) as nat,
        |j: int| elems[((j / (dims[3] as int)) * dims[2] + l) * dims[3] + j % (dims[3] as int)],
    )
}

/// Whether every running product of the axis lengths is a machine integer,
/// from the first axis on and from the last axis on.
pub fn fits(dims: &Vec<usize>) -> (ok: bool)
    ensures
        ok == dims_fit(dims@),
{
    let mut product: usize = 1;
    let mut i: usize = 0;
    while i < dims.len()
        invariant
            i <= dims.len(),
            product == prefix_product(dims@, i as int),
            forall|n: int| 0 <= n <= i ==> #[trigger] prefix_product(dims@, n) <= usize::MAX,
        decreases dims.len() - i,
    {
        assert(prefix_product(dims@, i + 1) == prefix_product(dims@, i as int) * dims@[i as int]);
        match product.checked_mul(dims[i]) {
            Some(next) => {
                product = next;
            },
            None => {
                return false;
            },
        }
        i += 1;
    }
    let mut product: usize = 1;
    let mut i: usize = 0;
    while i < dims.len()
        invariant
            i <= dims.len(),
            product == suffix_product(dims@, i as int),
            forall|n: int| 0 <= n <= dims.len() ==> #[trigger] prefix_product(dims@, n) <= usize::MAX,
            forall|n: int| 0 <= n <= i ==> #[trigger] suffix_product(dims@, n) <= usize::MAX,
        decreases dims.len() - i,
    {
        assert(suffix_product(dims@, i + 1) == suffix_product(dims@, i as int) * dims@[dims.len()
            - (i + 1)]);
        match product.checked_mul(dims[dims.len() - 1 - i]) {
            Some(next) => {
                product = next;
            },
            None => {
                return false;
            },
        }
        i += 1;
    }
    true
}

/// Whether the engine can count the output of a linear transform of
/// `out_features` outputs on an input of shape `x`.
pub fn output_fits(x: &Vec<usize>, out_features: usize) -> (ok: bool)
    requires
        x.len() >= 1,
    ensures
        ok == dims_fit(linear_out_dims(x@, out_features)),
{
    let mut out: Vec<usize> = Vec::new();
    let mut i: usize = 0;
    while i + 1 < x.len()
        invariant
            1 <= x.len(),
            i + 1 <= x.len(),
            out@ == x@.take(i as int),
        decreases x.len() - i,
    {
        out.push(x[i]);
        assert(x@.take(i as int).push(x@[i as int]) =~= x@.take(i + 1));
        i += 1;
    }
    out.push(out_features);
    assert(x@.take(x.len() - 1) =~= x@.drop_last());
    fits(&out)
}

/// The length of the axis `i` places before the last one, or 1 where the
/// shape has no such axis.
pub fn axis_length_from_end(dims: &Vec<usize>, i: usize) -> (length: usize)
    ensures
        length == axis_from_end(dims@, i as int),
{
    if i < dims.len() {
        dims[dims.len() - 1 - i]
    } else {
        1
    }
}

/// The shape that `a` and `b` broadcast to, where they can be broadcast
/// against each other.
pub fn broadcast_shape(a: &Vec<usize>, b: &Vec<usize>) -> (out: Option<Vec<usize>>)
    ensures
        out is Some <==> broadcast_compatible(a@, b@),
        out matches Some(dims) ==> dims@ == broadcast_dims(a@, b@),
{
    let rank = if a.len() >= b.len() {
        a.len()
    } else {
        b.len()
    };
    let mut dims: Vec<usize> = Vec::new();
    let mut j: usize = 0;
    while j < rank
        invariant
            j <= rank,
            rank == max_rank(a@, b@),
            dims.len() == j,
            forall|k: int| 0 <= k < j ==> #[trigger] dims@[k] == broadcast_dims(a@, b@)[k],
            forall|i: int|
                rank - j <= i < rank ==> {
                    ||| #[trigger] axis_from_end(a@, i) == axis_from_end(b@, i)
                    ||| axis_from_end(a@, i) == 1
                    ||| axis_from_end(b@, i) == 1
                },
        decreases rank - j,
    {
        let x = axis_length_from_end(a, rank - 1 - j);
        let y = axis_length_from_end(b, rank - 1 - j);
        if x != y && x != 1 && y != 1 {
            return None;
        }
        dims.push(if x == 1 {
            y
        } else {
            x
        });
        j += 1;
    }
    proof {
        assert(dims@ =~= broadcast_dims(a@, b@));
    }
    Some(dims)
}

} // verus!
