//! Input arrays for the inference runtime, built with the `ndarray` crate.

use vstd::prelude::*;

verus! {

/// Product of the extents of `shape` (1 for no extents).
pub open spec fn extent_product(shape: Seq<usize>) -> int
    decreases shape.len(),
{
    if shape.len() == 0 {
        1
    } else {
        extent_product(shape.drop_last()) * shape.last()
    }
}

/// Product of the extents of `shape` that are not zero (1 if there is none).
pub open spec fn nonzero_extent_product(shape: Seq<usize>) -> int
    decreases shape.len(),
{
    if shape.len() == 0 {
        1
    } else if shape.last() == 0 {
        nonzero_extent_product(shape.drop_last())
    } else {
        nonzero_extent_product(shape.drop_last()) * shape.last()
    }
}

/// Product laws: no extents give 1; one more extent `x` multiplies the product of all
/// extents by `x`, and the product of the nonzero extents by `x` unless `x` is zero.
pub proof fn law_extent_products(s: Seq<usize>, x: usize)
    ensures
        extent_product(Seq::<usize>::empty()) == 1,
        nonzero_extent_product(Seq::<usize>::empty()) == 1,
        extent_product(s.push(x)) == extent_product(s) * x,
        nonzero_extent_product(s.push(x)) == if x == 0 {
            nonzero_extent_product(s)
        } else {
            nonzero_extent_product(s) * x
        },
{
    assert(s.push(x).drop_last() =~= s);
}

/// Whether `ndarray` accepts `shape` (in standard row-major layout) over `len` elements.
pub open spec fn shape_accepts(shape: Seq<usize>, len: nat) -> bool {
    &&& nonzero_extent_product(shape) <= isize::MAX
    &&& extent_product(shape) == len
}

/// An `ndarray::ArrayD<u32>`: a dynamic-dimensional array of float bit patterns.
#[verifier::external_body]
pub struct InputArray {
    pub array: ndarray::ArrayD<u32>,
}

/// The shape of an input array.
pub uninterp spec fn array_shape(a: InputArray) -> Seq<usize>;

/// The elements of an input array, in row-major order.
pub uninterp spec fn array_elements(a: InputArray) -> Seq<u32>;

/// The error type of `ndarray` for a shape that does not fit the data.
#[verifier::external_type_specification]
#[verifier::external_body]
pub struct ExShapeError(ndarray::ShapeError);

/// Calls `ndarray::ArrayD::from_shape_vec(shape, data)`. In that crate's source the
/// call succeeds exactly when the product of the nonzero extents is at most
/// `isize::MAX` (checked as it multiplies) and the product of all extents equals the
/// number of elements; the array it builds has that shape and holds `data` in
/// row-major order.
#[verifier::external_body]
pub(crate) fn array_from_shape_vec(shape: Vec<usize>, data: Vec<u32>) -> (r: Result<
    InputArray,
    ndarray::ShapeError,
>)
    ensures
        r is Ok <==> shape_accepts(shape@, data@.len()),
        r matches Ok(a) ==> array_shape(a) == shape@ && array_elements(a) == data@,
{
    match ndarray::ArrayD::from_shape_vec(shape, data) {
        Ok(array) => Ok(InputArray { array }),
        Err(e) => Err(e),
    }
}

} // verus!
