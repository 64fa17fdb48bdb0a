//! Tensors: a shape and the elements in row-major order.

use vstd::prelude::*;

use crate::codec::{le_bytes_of_words, lemma_bytes_roundtrip, lemma_words_roundtrip, words_from_le_bytes};

verus! {

/// Product of the dimensions, taken from the first to the last (1 for no dimensions).
pub open spec fn shape_product(dims: Seq<i64>) -> int
    decreases dims.len(),
{
    if dims.len() == 0 {
        1
    } else {
        shape_product(dims.drop_last()) * dims.last()
    }
}

/// Every running product of the dimensions fits in an `i64`.
pub open spec fn shape_product_fits(dims: Seq<i64>) -> bool {
    forall|k: int| 0 <= k <= dims.len() ==> i64::MIN <= #[trigger] shape_product(dims.take(k)) <= i64::MAX
}

/// Number of elements that a shape describes, as an `i64`.
pub fn element_count(dimension: &Vec<i64>) -> (n: i64)
    requires
        shape_product_fits(dimension@),
    ensures
        n == shape_product(dimension@),
{
    let mut n: i64 = 1;
    let mut i: usize = 0;
    assert(dimension@.take(0) =~= Seq::<i64>::empty());
    while i < dimension.len()
        invariant
            i <= dimension.len(),
            shape_product_fits(dimension@),
            n == shape_product(dimension@.take(i as int)),
        decreases dimension.len() - i,
    {
        assert(dimension@.take(i + 1).drop_last() =~= dimension@.take(i as int));
        assert(i64::MIN <= shape_product(dimension@.take(i + 1)) <= i64::MAX);
        n = n * dimension[i];
        i = i + 1;
    }
    assert(dimension@.take(dimension.len() as int) =~= dimension@);
    n
}

/// Tensor of 32-bit float elements, each kept as its bit pattern, with its shape.
pub struct OnnxTensor {
    data: Vec<u32>,
    dimension: Vec<i64>,
}

impl OnnxTensor {
    /// The elements (bit patterns of the floats), in row-major order.
    pub closed spec fn data_bits(&self) -> Seq<u32> {
        self.data@
    }

    /// The shape.
    pub closed spec fn dims(&self) -> Seq<i64> {
        self.dimension@
    }

    /// An empty tensor: no elements and no dimensions.
    pub fn new() -> (t: Self)
        ensures
            t.data_bits() == Seq::<u32>::empty(),
            t.dims() == Seq::<i64>::empty(),
    {
        OnnxTensor { data: Vec::new(), dimension: Vec::new() }
    }

    /// Builds a tensor from raw bytes, read as 32-bit floats in little-endian order.
    /// Where the byte count is not four times the element count of `dimension`,
    /// the result is the empty tensor.
    pub fn from_bytes(bytes: Vec<u8>, dimension: Vec<i64>) -> (t: Self)
        requires
            shape_product_fits(dimension@),
            i64::MIN <= 4 * shape_product(dimension@) <= i64::MAX,
        ensures
            bytes.len() == (4 * shape_product(dimension@)) as usize ==> {
                &&& t.data_bits() == words_from_le_bytes(bytes@)
                &&& t.dims() == dimension@
            },
            bytes.len() != (4 * shape_product(dimension@)) as usize ==> {
                &&& t.data_bits() == Seq::<u32>::empty()
                &&& t.dims() == Seq::<i64>::empty()
            },
    {
        let n = element_count(&dimension);
        let expected_len = (n * 4) as usize;
        if bytes.len() != expected_len {
            return OnnxTensor::new();
        }
        let count = bytes.len() / 4;
        let mut data: Vec<u32> = Vec::new();
        let mut i: usize = 0;
        while i < count
            invariant
                count == bytes.len() / 4,
                i <= count,
                data@ == words_from_le_bytes(bytes@).take(i as int),
            decreases count - i,
        {
            let w = (bytes[4 * i] as u32) | ((bytes[4 * i + 1] as u32) << 8u32) | ((bytes[4 * i
                + 2] as u32) << 16u32) | ((bytes[4 * i + 3] as u32) << 24u32);
            data.push(w);
            assert(data@ =~= words_from_le_bytes(bytes@).take(i + 1));
            i = i + 1;
        }
        assert(data@ =~= words_from_le_bytes(bytes@));
        let mut out = OnnxTensor::new();
        out.set_data_and_dimension(data, dimension);
        out
    }

    /// Builds a tensor from float elements (given as bit patterns). Where their
    /// number is not the element count of `dimension`, the result is the empty tensor.
    pub fn from_float32s(float32s: Vec<u32>, dimension: Vec<i64>) -> (t: Self)
        requires
            shape_product_fits(dimension@),
        ensures
            float32s.len() == shape_product(dimension@) as usize ==> {
                &&& t.data_bits() == float32s@
                &&& t.dims() == dimension@
            },
            float32s.len() != shape_product(dimension@) as usize ==> {
                &&& t.data_bits() == Seq::<u32>::empty()
                &&& t.dims() == Seq::<i64>::empty()
            },
    {
        let n = element_count(&dimension);
        if float32s.len() != n as usize {
            return OnnxTensor::new();
        }
        let mut out = OnnxTensor::new();
        out.set_data_and_dimension(float32s, dimension);
        out
    }

    fn set_data_and_dimension(&mut self, data: Vec<u32>, dimension: Vec<i64>)
        ensures
            final(self).data_bits() == data@,
            final(self).dims() == dimension@,
    {
        self.data = data;
        self.dimension = dimension;
    }

    /// The elements as raw bytes, each float written little-endian.
    pub fn get_data(&self) -> (bytes: Vec<u8>)
        requires
            4 * self.data_bits().len() <= usize::MAX,
        ensures
            bytes@ == le_bytes_of_words(self.data_bits()),
            bytes.len() == 4 * self.data_bits().len(),
    {
        let mut out: Vec<u8> = Vec::new();
        let mut i: usize = 0;
        while i < self.data.len()
            invariant
                i <= self.data.len(),
                4 * self.data@.len() <= usize::MAX,
                out@ == le_bytes_of_words(self.data@.take(i as int)),
            decreases self.data.len() - i,
        {
            let w = self.data[i];
            out.push((w & 0xffu32) as u8);
            out.push(((w >> 8u32) & 0xffu32) as u8);
            out.push(((w >> 16u32) & 0xffu32) as u8);
            out.push(((w >> 24u32) & 0xffu32) as u8);
            proof {
                let next = le_bytes_of_words(self.data@.take(i + 1));
                assert forall|j: int| 0 <= j < 4 * i + 4 implies #[trigger] out@[j] == next[j] by {
                    if j < 4 * i {
                        assert(j / 4 < i);
                    } else {
                        assert(j / 4 == i);
                    }
                }
                assert(out@ =~= next);
            }
            i = i + 1;
        }
        assert(self.data@.take(self.data@.len() as int) =~= self.data@);
        out
    }

    /// The shape.
    pub fn get_dimension(&self) -> (dims: Vec<i64>)
        ensures
            dims@ == self.dims(),
    {
        self.dimension.clone()
    }

    /// True when the tensor holds at least one element.
    pub fn is_captured(&self) -> (r: bool)
        ensures
            r == (self.data_bits().len() > 0),
    {
        !self.data.is_empty()
    }

    /// The shape, for handing to the inference runtime.
    pub fn shape_slice(&self) -> (dims: Vec<i64>)
        ensures
            dims@ == self.dims(),
    {
        self.dimension.clone()
    }

    /// The elements (bit patterns), for handing to the inference runtime.
    pub fn data_slice(&self) -> (data: Vec<u32>)
        ensures
            data@ == self.data_bits(),
    {
        self.data.clone()
    }

    /// Builds a tensor from a shape and elements as they come out of the inference runtime.
    pub fn from_shape_and_data(shape: Vec<i64>, data: Vec<u32>) -> (t: Self)
        ensures
            t.data_bits() == data@,
            t.dims() == shape@,
    {
        let mut out = OnnxTensor::new();
        out.set_data_and_dimension(data, shape);
        out
    }
}

/// Product law: no dimensions make one element, and one more dimension `x`
/// multiplies the element count by `x`, whatever the rank.
pub proof fn law_shape_product(d: Seq<i64>, x: i64)
    ensures
        shape_product(Seq::<i64>::empty()) == 1,
        shape_product(d.push(x)) == shape_product(d) * x,
{
    assert(d.push(x).drop_last() =~= d);
}

/// A byte count that `from_bytes` accepts is a multiple of four.
pub proof fn lemma_accepted_byte_count(n: i64)
    requires
        i64::MIN <= 4 * n <= i64::MAX,
    ensures
        ((4 * n) as usize) % 4 == 0,
{
    let m: i64 = (4 * n) as i64;
    assert(m & 3 == 0) by (bit_vector)
        requires
            m == 4 * n,
            i64::MIN <= 4 * n <= i64::MAX,
    ;
    assert((m as usize) % 4 == 0) by (bit_vector)
        requires
            m & 3 == 0,
    ;
}

/// A tensor built by `from_bytes` gives back, through `get_data`, exactly the
/// bytes it was built from.
pub proof fn law_from_bytes_then_get_data(bytes: Seq<u8>, dimension: Seq<i64>)
    requires
        shape_product_fits(dimension),
        i64::MIN <= 4 * shape_product(dimension) <= i64::MAX,
        bytes.len() == (4 * shape_product(dimension)) as usize,
    ensures
        le_bytes_of_words(words_from_le_bytes(bytes)) == bytes,
        4 * words_from_le_bytes(bytes).len() == bytes.len(),
{
    lemma_accepted_byte_count(shape_product(dimension) as i64);
    lemma_bytes_roundtrip(bytes);
}

/// `from_bytes` applied to the bytes and the shape of a tensor whose element
/// count matches its shape rebuilds that tensor.
pub proof fn law_get_data_then_from_bytes(data: Seq<u32>, dimension: Seq<i64>)
    requires
        shape_product_fits(dimension),
        i64::MIN <= 4 * shape_product(dimension) <= i64::MAX,
        4 * data.len() == (4 * shape_product(dimension)) as usize,
    ensures
        le_bytes_of_words(data).len() == (4 * shape_product(dimension)) as usize,
        words_from_le_bytes(le_bytes_of_words(data)) == data,
{
    lemma_words_roundtrip(data);
}

/// For elements whose number matches the shape, `from_bytes` on their
/// little-endian bytes and `from_float32s` on the elements accept alike and
/// build the same tensor.
pub proof fn law_from_bytes_agrees_with_from_float32s(data: Seq<u32>, dimension: Seq<i64>)
    requires
        shape_product_fits(dimension),
        i64::MIN <= 4 * shape_product(dimension) <= i64::MAX,
        4 * data.len() <= usize::MAX,
        data.len() == shape_product(dimension),
    ensures
        le_bytes_of_words(data).len() == (4 * shape_product(dimension)) as usize,
        data.len() == shape_product(dimension) as usize,
        words_from_le_bytes(le_bytes_of_words(data)) == data,
{
    lemma_words_roundtrip(data);
}

} // verus!
