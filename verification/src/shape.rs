//! The element count of a shape, and the test that a shape describes a
//! buffer of a given length.

use vstd::prelude::*;

verus! {

/// The product of the first `k` axis lengths.
pub open spec fn size_of_axes(shape: Seq<usize>, k: int) -> nat
    decreases k,
{
    if k <= 0 {
        1
    } else {
        size_of_axes(shape, k - 1) * (shape[k - 1] as nat)
    }
}

/// The product of those among the first `k` axis lengths that are not zero.
pub open spec fn nonzero_size_of_axes(shape: Seq<usize>, k: int) -> nat
    decreases k,
{
    if k <= 0 {
        1
    } else if shape[k - 1] == 0 {
        nonzero_size_of_axes(shape, k - 1)
    } else {
        nonzero_size_of_axes(shape, k - 1) * (shape[k - 1] as nat)
    }
}

/// The number of elements of an array of this shape: the product of all axis
/// lengths, 1 for a shape without axes.
pub open spec fn shape_size(shape: Seq<usize>) -> nat {
    size_of_axes(shape, shape.len() as int)
}

/// Whether an array of this shape can be addressed: the product of its
/// non-zero axis lengths does not exceed `isize::MAX`.
pub open spec fn shape_fits(shape: Seq<usize>) -> bool {
    nonzero_size_of_axes(shape, shape.len() as int) <= isize::MAX
}

/// Whether `shape` can be addressed and holds exactly `len` elements.
pub open spec fn shape_holds(shape: Seq<usize>, len: int) -> bool {
    shape_fits(shape) && shape_size(shape) == len
}

/// The product of the non-zero axis lengths never shrinks as axes are added.
pub proof fn lemma_nonzero_size_grows(shape: Seq<usize>, i: int, j: int)
    requires
        0 <= i <= j <= shape.len(),
    ensures
        1 <= nonzero_size_of_axes(shape, i) <= nonzero_size_of_axes(shape, j),
    decreases j,
{
    if j > 0 {
        let below = if i < j { i } else { j - 1 };
        lemma_nonzero_size_grows(shape, below, j - 1);
        let before = nonzero_size_of_axes(shape, j - 1);
        let axis = shape[j - 1] as nat;
        if axis != 0 {
            assert(before <= before * axis) by (nonlinear_arith)
                requires
                    axis >= 1,
            ;
        }
    }
}

/// With no zero among the first `k` axes both products agree; with one, the
/// product of all of them is zero.
pub proof fn lemma_size_and_nonzero_size(shape: Seq<usize>, k: int)
    requires
        0 <= k <= shape.len(),
    ensures
        (forall|j: int| 0 <= j < k ==> shape[j] != 0) ==> size_of_axes(shape, k)
            == nonzero_size_of_axes(shape, k),
        (exists|j: int| 0 <= j < k && shape[j] == 0) ==> size_of_axes(shape, k) == 0,
    decreases k,
{
    if k > 0 {
        lemma_size_and_nonzero_size(shape, k - 1);
        let before = size_of_axes(shape, k - 1);
        let axis = shape[k - 1] as nat;
        if exists|j: int| 0 <= j < k && shape[j] == 0 {
            let j = choose|j: int| 0 <= j < k && shape[j] == 0;
            if j < k - 1 {
                assert(before == 0);
                assert(before * axis == 0) by (nonlinear_arith)
                    requires
                        before == 0,
                ;
            } else {
                assert(before * axis == 0) by (nonlinear_arith)
                    requires
                        axis == 0,
                ;
            }
        }
    }
}

/// Tests whether `shape` can be addressed and holds exactly `len` elements.
pub fn shape_matches(shape: &Vec<usize>, len: usize) -> (ok: bool)
    ensures
        ok == shape_holds(shape@, len as int),
{
    let limit: usize = isize::MAX as usize;
    let mut nonzero: usize = 1;
    let mut has_zero: bool = false;
    let mut i: usize = 0;
    while i < shape.len()
        invariant
            i <= shape.len(),
            limit == isize::MAX,
            nonzero == nonzero_size_of_axes(shape@, i as int),
            nonzero <= limit,
            has_zero == (exists|j: int| 0 <= j < i && shape@[j] == 0),
        decreases shape.len() - i,
    {
        let axis: usize = shape[i];
        if axis == 0 {
            has_zero = true;
        } else {
            let grown: Option<usize> = nonzero.checked_mul(axis);
            let fits: bool = match grown {
                Some(product) => product <= limit,
                None => false,
            };
            if !fits {
                proof {
                    lemma_nonzero_size_grows(shape@, i as int + 1, shape.len() as int);
                }
                return false;
            }
            nonzero = grown.unwrap();
        }
        i = i + 1;
    }
    proof {
        lemma_size_and_nonzero_size(shape@, shape.len() as int);
    }
    if has_zero {
        len == 0
    } else {
        nonzero == len
    }
}

} // verus!
