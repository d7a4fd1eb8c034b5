//! Tensor descriptors: element types, shapes, row-major strides.
use vstd::prelude::*;

verus! {

/// Data types supported by the NPU.
#[derive(Debug, Clone, Copy, PartialEq, Eq, Structural)]
pub enum DataType {
    Float32,
    Float16,
    BFloat16,
    Int32,
    Int16,
    Int8,
    UInt8,
    Bool,
}

/// Size of one element in bytes.
pub open spec fn dtype_size(d: DataType) -> nat {
    match d {
        DataType::Float32 | DataType::Int32 => 4,
        DataType::Float16 | DataType::BFloat16 | DataType::Int16 => 2,
        DataType::Int8 | DataType::UInt8 | DataType::Bool => 1,
    }
}

/// Name of an element type.
pub open spec fn dtype_name(d: DataType) -> &'static str {
    match d {
        DataType::Float32 => "float32",
        DataType::Float16 => "float16",
        DataType::BFloat16 => "bfloat16",
        DataType::Int32 => "int32",
        DataType::Int16 => "int16",
        DataType::Int8 => "int8",
        DataType::UInt8 => "uint8",
        DataType::Bool => "bool",
    }
}

impl DataType {
    /// Size in bytes.
    pub fn size(&self) -> (n: usize)
        ensures
            n == dtype_size(*self),
    {
        match self {
            DataType::Float32 | DataType::Int32 => 4,
            DataType::Float16 | DataType::BFloat16 | DataType::Int16 => 2,
            DataType::Int8 | DataType::UInt8 | DataType::Bool => 1,
        }
    }

    /// Name string.
    pub fn name(&self) -> (s: &'static str)
        ensures
            s@ == dtype_name(*self)@,
    {
        match self {
            DataType::Float32 => "float32",
            DataType::Float16 => "float16",
            DataType::BFloat16 => "bfloat16",
            DataType::Int32 => "int32",
            DataType::Int16 => "int16",
            DataType::Int8 => "int8",
            DataType::UInt8 => "uint8",
            DataType::Bool => "bool",
        }
    }
}

/// Product of the dimensions of a shape (1 for no dimensions).
pub open spec fn shape_product(s: Seq<u32>) -> int
    decreases s.len(),
{
    if s.len() == 0 {
        1
    } else {
        shape_product(s.drop_last()) * s.last()
    }
}

/// Product of the dimensions from index `i` on: the row-major stride of
/// dimension `i - 1`.
pub open spec fn suffix_product(s: Seq<u32>, i: int) -> int {
    shape_product(s.subrange(i, s.len() as int))
}

/// Every running product of the dimensions, taken from the front, is at most
/// `bound`.
pub open spec fn prefix_products_within(s: Seq<u32>, bound: int) -> bool {
    forall|k: int| 0 <= k <= s.len() ==> #[trigger] shape_product(s.take(k)) <= bound
}

/// Every product of trailing dimensions (each stride) fits in a `u32`.
pub open spec fn suffix_products_fit(s: Seq<u32>) -> bool {
    forall|i: int| 1 <= i <= s.len() ==> #[trigger] suffix_product(s, i) <= u32::MAX
}

/// What `TensorDesc::new` needs of a shape and element type: at least one
/// dimension, every running product and every stride within `u32`, and the
/// byte size within `usize`.
pub open spec fn tensor_shape_ok(dtype: DataType, s: Seq<u32>) -> bool {
    &&& s.len() >= 1
    &&& prefix_products_within(s, u32::MAX as int)
    &&& suffix_products_fit(s)
    &&& shape_product(s) * dtype_size(dtype) <= usize::MAX
}

/// Dimension `i` counted from the last one, 1 past the first dimension.
pub open spec fn dim_from_end(s: Seq<u32>, i: int) -> u32 {
    if i < s.len() {
        s[s.len() - 1 - i]
    } else {
        1
    }
}

/// Two shapes broadcast when, aligned at their last dimensions, each pair of
/// dimensions is equal or has a 1 (missing leading dimensions count as 1).
pub open spec fn broadcastable(a: Seq<u32>, b: Seq<u32>) -> bool {
    forall|i: int|
        0 <= i < (if a.len() >= b.len() { a.len() } else { b.len() }) ==> {
            let x = #[trigger] dim_from_end(a, i);
            let y = dim_from_end(b, i);
            x == y || x == 1 || y == 1
        }
}

/// The product of a shape is its first dimension times the product of the
/// rest.
pub proof fn lemma_product_first(s: Seq<u32>)
    requires
        s.len() > 0,
    ensures
        shape_product(s) == s[0] * shape_product(s.drop_first()),
    decreases s.len(),
{
    if s.len() == 1 {
        assert(shape_product(s.drop_last()) == 1);
        assert(shape_product(s.drop_first()) == 1);
        assert(s.last() == s[0]);
    } else {
        let d = s.drop_last();
        lemma_product_first(d);
        let t = s.drop_first();
        assert(d.drop_first() =~= t.drop_last());
        assert(t.last() == s.last());
        assert(d[0] == s[0]);
        let p = shape_product(d.drop_first());
        assert(shape_product(s) == shape_product(d) * s.last());
        assert(shape_product(t) == shape_product(t.drop_last()) * t.last());
        assert(s[0] * p * s.last() == s[0] * (p * s.last())) by (nonlinear_arith);
    }
}

/// The product of a one-dimensional shape is its dimension.
pub proof fn lemma_product_single(s: Seq<u32>)
    requires
        s.len() == 1,
    ensures
        shape_product(s) == s[0],
{
    assert(shape_product(s.drop_last()) == 1);
}

/// The product of a shape is never negative.
pub proof fn lemma_product_nonneg(s: Seq<u32>)
    ensures
        shape_product(s) >= 0,
    decreases s.len(),
{
    if s.len() > 0 {
        lemma_product_nonneg(s.drop_last());
        let p = shape_product(s.drop_last());
        let l = s.last();
        assert(p * l >= 0) by (nonlinear_arith)
            requires
                p >= 0,
                l >= 0,
        ;
    }
}

/// Tensor descriptor.
#[derive(Debug, Clone)]
pub struct TensorDesc {
    /// Data type.
    pub dtype: DataType,
    /// Shape (dimensions).
    pub shape: Vec<u32>,
    /// Strides (in elements).
    pub strides: Vec<u32>,
    /// Total size in bytes.
    pub size_bytes: usize,
}

impl TensorDesc {
    /// Describes a tensor of `shape` with row-major strides and its size in
    /// bytes.
    pub fn new(dtype: DataType, shape: Vec<u32>) -> (t: Self)
        requires
            tensor_shape_ok(dtype, shape@),
        ensures
            t.dtype == dtype,
            t.shape@ == shape@,
            t.strides@.len() == shape@.len(),
            forall|i: int|
                0 <= i < shape@.len() ==> #[trigger] t.strides@[i] == suffix_product(
                    shape@,
                    i + 1,
                ),
            t.size_bytes == shape_product(shape@) * dtype_size(dtype),
    {
        let strides = Self::compute_strides(&shape);
        let num_elements = Self::product_u32(&shape);
        let size_bytes = num_elements as usize * dtype.size();
        TensorDesc { dtype, shape, strides, size_bytes }
    }

    /// Product of the dimensions, taken from the front in `u32`.
    fn product_u32(shape: &Vec<u32>) -> (p: u32)
        requires
            prefix_products_within(shape@, u32::MAX as int),
        ensures
            p == shape_product(shape@),
    {
        let mut acc: u32 = 1;
        let mut k: usize = 0;
        while k < shape.len()
            invariant
                0 <= k <= shape@.len(),
                prefix_products_within(shape@, u32::MAX as int),
                acc == shape_product(shape@.take(k as int)),
            decreases shape@.len() - k,
        {
            assert(shape@.take(k as int + 1).drop_last() =~= shape@.take(k as int));
            assert(shape_product(shape@.take(k as int + 1)) <= u32::MAX);
            acc = acc * shape[k];
            k = k + 1;
        }
        assert(shape@.take(shape@.len() as int) =~= shape@);
        acc
    }

    /// Row-major strides: each is the product of the dimensions after it.
    fn compute_strides(shape: &Vec<u32>) -> (strides: Vec<u32>)
        requires
            shape@.len() >= 1,
            suffix_products_fit(shape@),
        ensures
            strides@.len() == shape@.len(),
            forall|i: int|
                0 <= i < shape@.len() ==> #[trigger] strides@[i] == suffix_product(shape@, i + 1),
    {
        let n = shape.len();
        let mut strides: Vec<u32> = vec![1u32; n];
        assert(shape@.subrange(n as int, n as int).len() == 0);
        let mut i: usize = n - 1;
        while i > 0
            invariant
                n == shape@.len(),
                n >= 1,
                0 <= i < n,
                strides@.len() == n,
                suffix_products_fit(shape@),
                forall|k: int| i <= k < n ==> #[trigger] strides@[k] == suffix_product(shape@, k + 1),
            decreases i,
        {
            let j = i - 1;
            proof {
                let sub = shape@.subrange(j as int + 1, n as int);
                lemma_product_first(sub);
                assert(sub.drop_first() =~= shape@.subrange(j as int + 2, n as int));
                assert(suffix_product(shape@, j as int + 1) <= u32::MAX);
                lemma_product_nonneg(sub.drop_first());
                assert(strides@[i as int] * shape@[i as int] == shape@[i as int] * strides@[i as int])
                    by (nonlinear_arith);
            }
            let s = strides[i] * shape[i];
            strides.set(j, s);
            i = j;
        }
        strides
    }

    /// Number of dimensions.
    pub fn ndim(&self) -> (n: usize)
        ensures
            n == self.shape@.len(),
    {
        self.shape.len()
    }

    /// Total number of elements.
    pub fn numel(&self) -> (n: usize)
        requires
            prefix_products_within(self.shape@, usize::MAX as int),
        ensures
            n == shape_product(self.shape@),
    {
        let mut acc: usize = 1;
        let mut k: usize = 0;
        while k < self.shape.len()
            invariant
                0 <= k <= self.shape@.len(),
                prefix_products_within(self.shape@, usize::MAX as int),
                acc == shape_product(self.shape@.take(k as int)),
            decreases self.shape@.len() - k,
        {
            assert(self.shape@.take(k as int + 1).drop_last() =~= self.shape@.take(k as int));
            assert(shape_product(self.shape@.take(k as int + 1)) <= usize::MAX);
            acc = acc * (self.shape[k] as usize);
            k = k + 1;
        }
        assert(self.shape@.take(self.shape@.len() as int) =~= self.shape@);
        acc
    }

    /// Whether the two shapes are compatible for broadcasting.
    pub fn is_broadcastable(&self, other: &TensorDesc) -> (b: bool)
        ensures
            b == broadcastable(self.shape@, other.shape@),
    {
        let la = self.shape.len();
        let lb = other.shape.len();
        let max_len = if la >= lb { la } else { lb };
        let mut i: usize = 0;
        while i < max_len
            invariant
                la == self.shape@.len(),
                lb == other.shape@.len(),
                max_len == (if la >= lb { la } else { lb }),
                0 <= i <= max_len,
                forall|k: int|
                    0 <= k < i ==> {
                        let x = #[trigger] dim_from_end(self.shape@, k);
                        let y = dim_from_end(other.shape@, k);
                        x == y || x == 1 || y == 1
                    },
            decreases max_len - i,
        {
            let a = if i < la { self.shape[la - 1 - i] } else { 1 };
            let b = if i < lb { other.shape[lb - 1 - i] } else { 1 };
            assert(a == dim_from_end(self.shape@, i as int));
            assert(b == dim_from_end(other.shape@, i as int));
            if a != b && a != 1 && b != 1 {
                return false;
            }
            i = i + 1;
        }
        true
    }
}

/// Broadcast compatibility does not depend on the order of the two shapes.
pub proof fn lemma_broadcastable_symmetric(a: Seq<u32>, b: Seq<u32>)
    ensures
        broadcastable(a, b) == broadcastable(b, a),
{
    if broadcastable(a, b) {
        assert forall|i: int|
            0 <= i < (if b.len() >= a.len() { b.len() } else { a.len() }) implies {
            let x = #[trigger] dim_from_end(b, i);
            let y = dim_from_end(a, i);
            x == y || x == 1 || y == 1
        } by {
            assert(dim_from_end(a, i) == dim_from_end(a, i));
        }
    }
    if broadcastable(b, a) {
        assert forall|i: int|
            0 <= i < (if a.len() >= b.len() { a.len() } else { b.len() }) implies {
            let x = #[trigger] dim_from_end(a, i);
            let y = dim_from_end(b, i);
            x == y || x == 1 || y == 1
        } by {
            assert(dim_from_end(b, i) == dim_from_end(b, i));
        }
    }
}

} // verus!
