//! Quantized tensors: a fixed-size 2D payload together with its affine
//! quantization parameters. A tensor is immutable after construction; every
//! runtime operation builds a fresh tensor.

use crate::buffer::Buffer2D;
use crate::quantize::Scale;
use vstd::prelude::*;

verus! {

/// A quantized 2D tensor of signed 8-bit elements: the real tensor is
/// `scale * (element - zero_point)` elementwise.
#[derive(Clone, Debug)]
pub struct Tensor2D {
    pub buffer: Buffer2D,
    pub scale: Scale,
    pub zero_point: i8,
}

impl Tensor2D {
    pub open spec fn wf(self) -> bool {
        &&& self.buffer.wf()
        &&& self.scale.wf()
    }

    pub fn new(buffer: Buffer2D, scale: Scale, zero_point: i8) -> (r: Tensor2D)
        requires
            buffer.wf(),
            scale.wf(),
        ensures
            r.buffer == buffer,
            r.scale == scale,
            r.zero_point == zero_point,
            r.wf(),
    {
        Tensor2D { buffer, scale, zero_point }
    }
}

/// Shape and quantization of a tensor that carries no materialized payload
/// (a runtime input or output: only its dimensions and quantization are
/// known at compile time).
#[derive(Clone, Copy, Debug)]
pub struct TensorMeta {
    pub rows: usize,
    pub cols: usize,
    pub scale: Scale,
    pub zero_point: i8,
}

impl TensorMeta {
    pub open spec fn wf(self) -> bool {
        &&& self.scale.wf()
        &&& self.rows <= crate::buffer::DIM_LIMIT
        &&& self.cols <= crate::buffer::DIM_LIMIT
    }

    pub fn new(rows: usize, cols: usize, scale: Scale, zero_point: i8) -> (r: TensorMeta)
        requires
            scale.wf(),
            rows <= crate::buffer::DIM_LIMIT,
            cols <= crate::buffer::DIM_LIMIT,
        ensures
            r.rows == rows,
            r.cols == cols,
            r.scale == scale,
            r.zero_point == zero_point,
            r.wf(),
    {
        TensorMeta { rows, cols, scale, zero_point }
    }
}

/// A per-channel bias vector: 32-bit quantized values with their own
/// quantization parameters, one entry per output column.
#[derive(Clone, Debug)]
pub struct BiasTensor {
    pub data: Vec<i32>,
    pub scale: Scale,
    pub zero_point: i32,
}

impl BiasTensor {
    pub open spec fn wf(self) -> bool {
        &&& self.scale.wf()
        &&& self.data.len() <= crate::buffer::DIM_LIMIT
    }

    pub fn new(data: Vec<i32>, scale: Scale, zero_point: i32) -> (r: BiasTensor)
        requires
            scale.wf(),
            data.len() <= crate::buffer::DIM_LIMIT,
        ensures
            r.data == data,
            r.scale == scale,
            r.zero_point == zero_point,
            r.wf(),
    {
        BiasTensor { data, scale, zero_point }
    }
}

} // verus!
