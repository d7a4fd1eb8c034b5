//! Common tensor shapes.
use vstd::prelude::*;
use super::tensor::{DataType, TensorDesc, dtype_size, lemma_product_single, shape_product, suffix_product};

verus! {

/// A one-element tensor of shape `[1]`.
pub fn scalar(dtype: DataType) -> (t: TensorDesc)
    ensures
        t.dtype == dtype,
        t.shape@ == seq![1u32],
        t.strides@ == seq![1u32],
        t.size_bytes == dtype_size(dtype),
{
    let shape: Vec<u32> = vec![1];
    proof {
        let s = shape@;
        assert(s.take(0).len() == 0);
        assert(s.take(1) =~= s);
        assert(s.drop_last().len() == 0);
        lemma_product_single(s);
        assert(s.subrange(1, 1).len() == 0);
        assert(suffix_product(s, 1) == 1);
    }
    let t = TensorDesc::new(dtype, shape);
    assert(t.strides@ =~= seq![1u32]);
    t
}

/// A vector of `n` elements.
pub fn vector(dtype: DataType, n: u32) -> (t: TensorDesc)
    requires
        n * dtype_size(dtype) <= usize::MAX,
    ensures
        t.dtype == dtype,
        t.shape@ == seq![n],
        t.strides@ == seq![1u32],
        t.size_bytes == n * dtype_size(dtype),
{
    let shape: Vec<u32> = vec![n];
    proof {
        let s = shape@;
        assert(s.take(0).len() == 0);
        assert(s.take(1) =~= s);
        assert(s.drop_last().len() == 0);
        lemma_product_single(s);
        assert(s.subrange(1, 1).len() == 0);
        assert(suffix_product(s, 1) == 1);
    }
    let t = TensorDesc::new(dtype, shape);
    assert(t.strides@ =~= seq![1u32]);
    t
}

/// An `m` by `n` matrix, row-major.
pub fn matrix(dtype: DataType, m: u32, n: u32) -> (t: TensorDesc)
    requires
        m * n <= u32::MAX,
        m * n * dtype_size(dtype) <= usize::MAX,
    ensures
        t.dtype == dtype,
        t.shape@ == seq![m, n],
        t.strides@ == seq![n, 1u32],
        t.size_bytes == m * n * dtype_size(dtype),
{
    let shape: Vec<u32> = vec![m, n];
    proof {
        let s = shape@;
        assert(s.take(0).len() == 0);
        assert(s.take(1).drop_last().len() == 0);
        lemma_product_single(s.take(1));
        assert(s.take(2) =~= s);
        assert(s.drop_last() =~= s.take(1));
        assert(shape_product(s) == m * n);
        assert(s.subrange(2, 2).len() == 0);
        assert(s.subrange(1, 2).drop_last() =~= s.subrange(2, 2));
        lemma_product_single(s.subrange(1, 2));
        assert(suffix_product(s, 1) == n);
        assert(suffix_product(s, 2) == 1);
    }
    let t = TensorDesc::new(dtype, shape);
    assert(t.strides@ =~= seq![n, 1u32]);
    t
}

/// What a four-dimensional shape `[a, b, c, d]` needs: every running product
/// and every stride within `u32`, and the byte size within `usize`.
pub open spec fn four_dims_ok(dtype: DataType, a: u32, b: u32, c: u32, d: u32) -> bool {
    &&& a * b <= u32::MAX
    &&& a * b * c <= u32::MAX
    &&& a * b * c * d <= u32::MAX
    &&& c * d <= u32::MAX
    &&& b * c * d <= u32::MAX
    &&& a * b * c * d * dtype_size(dtype) <= usize::MAX
}

/// Builds the descriptor of a four-dimensional shape.
fn four_dims(dtype: DataType, a: u32, b: u32, c: u32, d: u32) -> (t: TensorDesc)
    requires
        four_dims_ok(dtype, a, b, c, d),
    ensures
        t.dtype == dtype,
        t.shape@ == seq![a, b, c, d],
        t.strides@ == seq![(b * c * d) as u32, (c * d) as u32, d, 1u32],
        t.size_bytes == a * b * c * d * dtype_size(dtype),
{
    let shape: Vec<u32> = vec![a, b, c, d];
    proof {
        let s = shape@;
        assert(s.take(0).len() == 0);
        assert(s.take(1).drop_last() =~= s.take(0));
        assert(s.take(2).drop_last() =~= s.take(1));
        assert(s.take(3).drop_last() =~= s.take(2));
        assert(s.take(4) =~= s);
        assert(s.drop_last() =~= s.take(3));
        lemma_product_single(s.take(1));
        assert(shape_product(s.take(2)) == a * b);
        assert(shape_product(s.take(3)) == a * b * c);
        assert(shape_product(s) == a * b * c * d);
        assert(s.subrange(4, 4).len() == 0);
        assert(s.subrange(3, 4).drop_last() =~= s.subrange(4, 4));
        assert(s.subrange(2, 4).drop_last() =~= s.subrange(2, 3));
        assert(s.subrange(2, 3).drop_last() =~= s.subrange(3, 3));
        assert(s.subrange(1, 4).drop_last() =~= s.subrange(1, 3));
        assert(s.subrange(1, 3).drop_last() =~= s.subrange(1, 2));
        assert(s.subrange(1, 2).drop_last() =~= s.subrange(2, 2));
        lemma_product_single(s.subrange(1, 2));
        lemma_product_single(s.subrange(2, 3));
        lemma_product_single(s.subrange(3, 4));
        assert(shape_product(s.subrange(1, 3)) == b * c);
        assert(suffix_product(s, 4) == 1);
        assert(suffix_product(s, 3) == d);
        assert(suffix_product(s, 2) == c * d);
        assert(suffix_product(s, 1) == b * c * d);
        assert(b * c * d == (b * c) * d);
        assert(forall|k: int| 0 <= k <= 4 ==> #[trigger] shape_product(s.take(k)) <= u32::MAX) by {
            assert(a * b * c * d >= 0);
        }
    }
    let t = TensorDesc::new(dtype, shape);
    assert(t.strides@ =~= seq![(b * c * d) as u32, (c * d) as u32, d, 1u32]);
    t
}

/// An image batch in NHWC layout.
pub fn image_nhwc(dtype: DataType, n: u32, h: u32, w: u32, c: u32) -> (t: TensorDesc)
    requires
        four_dims_ok(dtype, n, h, w, c),
    ensures
        t.dtype == dtype,
        t.shape@ == seq![n, h, w, c],
        t.strides@ == seq![(h * w * c) as u32, (w * c) as u32, c, 1u32],
        t.size_bytes == n * h * w * c * dtype_size(dtype),
{
    four_dims(dtype, n, h, w, c)
}

/// An image batch in NCHW layout.
pub fn image_nchw(dtype: DataType, n: u32, c: u32, h: u32, w: u32) -> (t: TensorDesc)
    requires
        four_dims_ok(dtype, n, c, h, w),
    ensures
        t.dtype == dtype,
        t.shape@ == seq![n, c, h, w],
        t.strides@ == seq![(c * h * w) as u32, (h * w) as u32, w, 1u32],
        t.size_bytes == n * c * h * w * dtype_size(dtype),
{
    four_dims(dtype, n, c, h, w)
}

} // verus!
