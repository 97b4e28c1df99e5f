//! The value model for tensors exchanged with the inference runtime.
//!
//! The runtime's own tensor values are opaque to this library, so a tensor is
//! held here as its observable content: an explicit shape and a flat element
//! buffer.  Floating-point elements are carried as their raw bit patterns;
//! callers that need arithmetic on them convert at the boundary.

use vstd::prelude::*;

verus! {

/// The element type of one tensor field.
#[derive(Clone, Copy, Debug, PartialEq, Eq, Structural)]
pub enum TensorDtype {
    Int64,
    Float32,
}

/// The flat element buffer of a tensor, one variant per supported dtype.
/// 32-bit floating-point elements are carried as raw bit patterns.
#[derive(Clone, Debug)]
pub enum TensorData {
    Int64(Vec<i64>),
    Float32Bits(Vec<u32>),
}

impl TensorData {
    /// The dtype this buffer carries.
    pub open spec fn spec_dtype(&self) -> TensorDtype {
        match self {
            TensorData::Int64(_) => TensorDtype::Int64,
            TensorData::Float32Bits(_) => TensorDtype::Float32,
        }
    }

    /// The number of elements in the buffer.
    pub open spec fn spec_len(&self) -> nat {
        match self {
            TensorData::Int64(v) => v@.len(),
            TensorData::Float32Bits(v) => v@.len(),
        }
    }

    pub fn dtype(&self) -> (d: TensorDtype)
        ensures
            d == self.spec_dtype(),
    {
        match self {
            TensorData::Int64(_) => TensorDtype::Int64,
            TensorData::Float32Bits(_) => TensorDtype::Float32,
        }
    }

    pub fn len(&self) -> (n: usize)
        ensures
            n == self.spec_len(),
    {
        match self {
            TensorData::Int64(v) => v.len(),
            TensorData::Float32Bits(v) => v.len(),
        }
    }
}

/// The number of elements a shape calls for: the product of its extents.
/// An empty shape (a rank-0 scalar) calls for exactly one element.
pub open spec fn spec_shape_volume(shape: Seq<usize>) -> nat
    decreases shape.len(),
{
    if shape.len() == 0 {
        1
    } else {
        (shape[0] * spec_shape_volume(shape.drop_first())) as nat
    }
}

pub proof fn lemma_volume_single(s: Seq<usize>)
    requires
        s.len() == 1,
    ensures
        spec_shape_volume(s) == s[0],
{
    assert(s.drop_first() =~= Seq::<usize>::empty());
    assert(spec_shape_volume(s.drop_first()) == 1);
    assert(spec_shape_volume(s) == (s[0] * spec_shape_volume(s.drop_first())) as nat);
}

pub proof fn lemma_volume_pair(s: Seq<usize>)
    requires
        s.len() == 2,
    ensures
        spec_shape_volume(s) == s[0] * s[1],
{
    lemma_volume_single(s.drop_first());
    assert(s.drop_first()[0] == s[1]);
}

/// One tensor value: a shape and a flat element buffer.
#[derive(Clone, Debug)]
pub struct Tensor {
    pub shape: Vec<usize>,
    pub data: TensorData,
}

impl Tensor {
    /// A tensor is well formed when its buffer holds exactly as many elements
    /// as its shape calls for.
    pub open spec fn well_formed(&self) -> bool {
        self.data.spec_len() == spec_shape_volume(self.shape@)
    }

    /// The rank of the tensor: the number of axes in its shape.
    pub open spec fn spec_rank(&self) -> nat {
        self.shape@.len()
    }

    pub open spec fn spec_dtype(&self) -> TensorDtype {
        self.data.spec_dtype()
    }

    pub fn rank(&self) -> (r: usize)
        ensures
            r == self.spec_rank(),
    {
        self.shape.len()
    }

    pub fn dtype(&self) -> (d: TensorDtype)
        ensures
            d == self.spec_dtype(),
    {
        self.data.dtype()
    }

    /// A rank-1 tensor of 64-bit integers.
    pub fn vector_i64(data: Vec<i64>) -> (t: Tensor)
        ensures
            t.well_formed(),
            t.spec_rank() == 1,
            t.spec_dtype() == TensorDtype::Int64,
            t.data == TensorData::Int64(data),
    {
        let n = data.len();
        let mut shape: Vec<usize> = Vec::new();
        shape.push(n);
        let t = Tensor { shape, data: TensorData::Int64(data) };
        proof {
            lemma_volume_single(t.shape@);
        }
        t
    }

    /// A rank-0 (scalar) tensor holding one 64-bit integer.
    pub fn scalar_i64(value: i64) -> (t: Tensor)
        ensures
            t.well_formed(),
            t.spec_rank() == 0,
            t.spec_dtype() == TensorDtype::Int64,
            t.data matches TensorData::Int64(v) && v@ == seq![value],
    {
        let mut data: Vec<i64> = Vec::new();
        data.push(value);
        Tensor { shape: Vec::new(), data: TensorData::Int64(data) }
    }

    /// A rank-1 tensor of 32-bit floats given as raw bit patterns.
    pub fn vector_f32_bits(data: Vec<u32>) -> (t: Tensor)
        ensures
            t.well_formed(),
            t.spec_rank() == 1,
            t.spec_dtype() == TensorDtype::Float32,
            t.data == TensorData::Float32Bits(data),
    {
        let n = data.len();
        let mut shape: Vec<usize> = Vec::new();
        shape.push(n);
        let t = Tensor { shape, data: TensorData::Float32Bits(data) };
        proof {
            lemma_volume_single(t.shape@);
        }
        t
    }

    /// A rank-2 tensor of 32-bit floats given as raw bit patterns, row major.
    pub fn matrix_f32_bits(rows: usize, cols: usize, data: Vec<u32>) -> (t: Tensor)
        requires
            rows * cols == data@.len(),
        ensures
            t.well_formed(),
            t.spec_rank() == 2,
            t.spec_dtype() == TensorDtype::Float32,
            t.data == TensorData::Float32Bits(data),
            t.shape@ == seq![rows, cols],
    {
        let mut shape: Vec<usize> = Vec::new();
        shape.push(rows);
        shape.push(cols);
        let t = Tensor { shape, data: TensorData::Float32Bits(data) };
        proof {
            lemma_volume_pair(t.shape@);
            assert(t.shape@ =~= seq![rows, cols]);
        }
        t
    }
}

} // verus!
