//! Compile-time extraction of operator records from a decoded model.
//!
//! The low-level decoder of the interchange format is an external
//! collaborator: it hands this module random-access lists of tensor,
//! buffer and operator records as plain values. This module turns one
//! operator at a time into an operator IR — checking the supported-operator
//! set, tensor ranks, quantization metadata, zero-point ranges and payload
//! byte lengths — folds the fully-connected constants, and walks the whole
//! model in order, failing fatally on the first malformed operator so that
//! no partial artifact is ever produced.

use crate::activation::FusedActivation;
use crate::buffer::{col_sum, Buffer2D, DIM_LIMIT};
use crate::ops::fully_connected::{folded_spec, FoldedConstants, FOLD_C1_LIMIT, FOLD_C3_LIMIT};
use crate::quantize::{lemma_mul_magnitude_bound, lemma_mul_positive, Scale, SCALE_LIMIT};
use crate::tensor::{BiasTensor, Tensor2D, TensorMeta};
use vstd::arithmetic::mul::lemma_mul_inequality;
use vstd::prelude::*;

verus! {

/// Builtin-operator code of the quantize operator in the interchange
/// format.
pub const OP_QUANTIZE: i64 = 114;

/// Builtin-operator code of the dequantize operator.
pub const OP_DEQUANTIZE: i64 = 6;

/// Builtin-operator code of the fully-connected operator.
pub const OP_FULLY_CONNECTED: i64 = 9;

/// The supported-operator set: any other code fails compilation.
pub open spec fn is_supported_op(opcode: i64) -> bool {
    opcode == OP_QUANTIZE || opcode == OP_DEQUANTIZE || opcode == OP_FULLY_CONNECTED
}

/// Whether an operator code belongs to the supported set.
pub fn supported_op(opcode: i64) -> (r: bool)
    ensures
        r == is_supported_op(opcode),
{
    opcode == OP_QUANTIZE || opcode == OP_DEQUANTIZE || opcode == OP_FULLY_CONNECTED
}

/// Element type a tensor record declares.
#[derive(Clone, Copy, Debug, PartialEq, Eq, Structural)]
pub enum ElemType {
    Float32,
    Int8,
    Int32,
}

/// Per-tensor quantization metadata as decoded from the model: the scale
/// as a rational, unvalidated, and the zero point at full width.
#[derive(Clone, Copy, Debug, PartialEq, Eq, Structural)]
pub struct QuantParams {
    pub scale_num: u32,
    pub scale_den: u32,
    pub zero_point: i64,
}

/// One tensor record of the decoded model's tensor list.
#[derive(Clone, Debug)]
pub struct TensorRecord {
    pub shape: Vec<usize>,
    pub element: ElemType,
    pub buffer_index: usize,
    pub quantization: Option<QuantParams>,
}

/// One operator record of the decoded model's operator list.
#[derive(Clone, Debug)]
pub struct OperatorRecord {
    pub opcode: i64,
    pub inputs: Vec<usize>,
    pub outputs: Vec<usize>,
    pub fused_activation: Option<FusedActivation>,
}

/// Why compilation failed; every error names the offending operator or
/// tensor, and any error aborts generation with no partial artifact.
#[derive(Clone, Copy, Debug, PartialEq, Eq, Structural)]
pub enum CompileError {
    /// The operator's code lies outside the supported set.
    UnsupportedOperator { operator: usize, opcode: i64 },
    /// The operator lacks operands, results or required options.
    MalformedOperator { operator: usize },
    /// A tensor index points outside the tensor list.
    MissingTensor { tensor: usize },
    /// The tensor's declared rank is not two.
    BadRank { tensor: usize },
    /// A tensor dimension exceeds what this target can hold.
    DimensionTooLarge { tensor: usize },
    /// The tensor's declared element type is not the expected one.
    BadElementType { tensor: usize },
    /// The tensor carries no quantization metadata.
    MissingQuantization { tensor: usize },
    /// The tensor's scale is zero or out of range.
    InvalidScale { tensor: usize },
    /// The tensor's zero point lies outside its element type's range.
    BadZeroPoint { tensor: usize },
    /// The tensor's buffer index points outside the buffer list.
    MissingBuffer { tensor: usize },
    /// The buffer's byte length does not match the declared shape.
    BadByteLength { tensor: usize },
    /// Chained layer shapes are incompatible.
    ShapeMismatch { operator: usize },
}

/// The signed value of one little-endian byte read at width one.
pub open spec fn i8_of_byte(b: u8) -> int {
    if b < 128 {
        b as int
    } else {
        b - 256
    }
}

/// The signed value of the four little-endian bytes starting at position
/// `4 * k`.
pub open spec fn i32_of_le_bytes(bytes: Seq<u8>, k: int) -> int {
    let v = bytes[4 * k] + 256 * bytes[4 * k + 1] + 65536 * bytes[4 * k + 2] + 16777216 * bytes[4
        * k + 3];
    if v >= 0x80000000 {
        v - 0x100000000
    } else {
        v
    }
}

/// Extraction of shape and quantization for a quantized 8-bit tensor: the
/// exact result, success or the first failure in checking order.
pub open spec fn tensor_meta_spec(tensors: Seq<TensorRecord>, idx: usize) -> Result<
    TensorMeta,
    CompileError,
> {
    if idx >= tensors.len() {
        Err(CompileError::MissingTensor { tensor: idx })
    } else {
        let t = tensors[idx as int];
        if t.shape.len() != 2 {
            Err(CompileError::BadRank { tensor: idx })
        } else if t.shape@[0] > DIM_LIMIT || t.shape@[1] > DIM_LIMIT {
            Err(CompileError::DimensionTooLarge { tensor: idx })
        } else if t.element != ElemType::Int8 {
            Err(CompileError::BadElementType { tensor: idx })
        } else {
            match t.quantization {
                None => Err(CompileError::MissingQuantization { tensor: idx }),
                Some(q) => if q.scale_num < 1 || q.scale_num > SCALE_LIMIT || q.scale_den < 1
                    || q.scale_den > SCALE_LIMIT {
                    Err(CompileError::InvalidScale { tensor: idx })
                } else if q.zero_point < -128 || q.zero_point > 127 {
                    Err(CompileError::BadZeroPoint { tensor: idx })
                } else {
                    Ok(
                        TensorMeta {
                            rows: t.shape@[0],
                            cols: t.shape@[1],
                            scale: Scale { num: q.scale_num, den: q.scale_den },
                            zero_point: q.zero_point as i8,
                        },
                    )
                },
            }
        }
    }
}

/// Reads shape and quantization of the quantized 8-bit tensor at `idx`.
pub fn tensor_meta(tensors: &Vec<TensorRecord>, idx: usize) -> (r: Result<
    TensorMeta,
    CompileError,
>)
    ensures
        r == tensor_meta_spec(tensors@, idx),
{
    if idx >= tensors.len() {
        return Err(CompileError::MissingTensor { tensor: idx });
    }
    let t = &tensors[idx];
    if t.shape.len() != 2 {
        return Err(CompileError::BadRank { tensor: idx });
    }
    let rows: usize = t.shape[0];
    let cols: usize = t.shape[1];
    if rows > DIM_LIMIT || cols > DIM_LIMIT {
        return Err(CompileError::DimensionTooLarge { tensor: idx });
    }
    if t.element != ElemType::Int8 {
        return Err(CompileError::BadElementType { tensor: idx });
    }
    match t.quantization {
        None => Err(CompileError::MissingQuantization { tensor: idx }),
        Some(q) => {
            if q.scale_num < 1 || q.scale_num > SCALE_LIMIT || q.scale_den < 1 || q.scale_den
                > SCALE_LIMIT {
                return Err(CompileError::InvalidScale { tensor: idx });
            }
            if q.zero_point < -128 || q.zero_point > 127 {
                return Err(CompileError::BadZeroPoint { tensor: idx });
            }
            Ok(
                TensorMeta {
                    rows,
                    cols,
                    scale: Scale { num: q.scale_num, den: q.scale_den },
                    zero_point: q.zero_point as i8,
                },
            )
        },
    }
}

/// Success conditions for extracting a tensor with a materialized 8-bit
/// payload: valid metadata, a buffer in range, and one byte per element.
pub open spec fn weights_ok(tensors: Seq<TensorRecord>, buffers: Seq<Vec<u8>>, idx: usize) -> bool {
    &&& tensor_meta_spec(tensors, idx) is Ok
    &&& tensors[idx as int].buffer_index < buffers.len()
    &&& buffers[tensors[idx as int].buffer_index as int]@.len() == tensors[idx as int].shape@[0]
        * tensors[idx as int].shape@[1]
}

/// The first failure in extracting a materialized 8-bit tensor.
pub open spec fn weights_err_spec(
    tensors: Seq<TensorRecord>,
    buffers: Seq<Vec<u8>>,
    idx: usize,
) -> CompileError {
    match tensor_meta_spec(tensors, idx) {
        Err(e) => e,
        Ok(m) => if tensors[idx as int].buffer_index >= buffers.len() {
            CompileError::MissingBuffer { tensor: idx }
        } else {
            CompileError::BadByteLength { tensor: idx }
        },
    }
}

/// How an extracted materialized 8-bit tensor relates to the model
/// records: its shape, quantization and decoded payload are all pinned.
pub open spec fn weights_matches(
    tensors: Seq<TensorRecord>,
    buffers: Seq<Vec<u8>>,
    idx: usize,
    w: Tensor2D,
) -> bool {
    let t = tensors[idx as int];
    let bytes = buffers[t.buffer_index as int]@;
    &&& tensor_meta_spec(tensors, idx) matches Ok(m) && w.scale == m.scale && w.zero_point
        == m.zero_point && w.buffer.rows == m.rows && w.buffer.cols == m.cols
    &&& w.buffer.data@.len() == bytes.len()
    &&& forall|k: int| 0 <= k < bytes.len() ==> #[trigger] w.buffer.data@[k] == i8_of_byte(bytes[k])
    &&& w.wf()
}

/// Extracts the tensor at `idx` together with its embedded byte payload,
/// decoded little-endian at width one into 8-bit elements.
pub fn weights_tensor(tensors: &Vec<TensorRecord>, buffers: &Vec<Vec<u8>>, idx: usize) -> (r:
    Result<Tensor2D, CompileError>)
    ensures
        r is Ok <==> weights_ok(tensors@, buffers@, idx),
        r matches Err(e) ==> e == weights_err_spec(tensors@, buffers@, idx),
        r matches Ok(w) ==> weights_matches(tensors@, buffers@, idx, w),
{
    let meta = match tensor_meta(tensors, idx) {
        Ok(m) => m,
        Err(e) => {
            return Err(e);
        },
    };
    let t = &tensors[idx];
    if t.buffer_index >= buffers.len() {
        return Err(CompileError::MissingBuffer { tensor: idx });
    }
    let bytes: &Vec<u8> = &buffers[t.buffer_index];
    proof {
        assert(meta.rows as int * meta.cols as int <= 0x40000000) by (nonlinear_arith)
            requires
                meta.rows <= 0x8000,
                meta.cols <= 0x8000,
        ;
    }
    let expected: usize = meta.rows * meta.cols;
    if bytes.len() != expected {
        return Err(CompileError::BadByteLength { tensor: idx });
    }
    let mut data: Vec<i8> = Vec::new();
    let mut k: usize = 0;
    while k < bytes.len()
        invariant
            k <= bytes.len(),
            data@.len() == k,
            forall|k0: int| 0 <= k0 < k ==> #[trigger] data@[k0] == i8_of_byte(bytes@[k0]),
        decreases bytes.len() - k,
    {
        let b: u8 = bytes[k];
        let v: i8 = if b < 128 {
            b as i8
        } else {
            ((b as i16) - 256) as i8
        };
        data.push(v);
        k = k + 1;
    }
    let buffer = Buffer2D::new(meta.rows, meta.cols, data);
    Ok(Tensor2D::new(buffer, meta.scale, meta.zero_point))
}

/// Success conditions for extracting the 32-bit bias tensor: rank two,
/// dimensions and element count in range, declared 32-bit elements, valid
/// quantization, a zero point that fits 32 bits, a buffer in range, and
/// four bytes per element.
pub open spec fn bias_ok(tensors: Seq<TensorRecord>, buffers: Seq<Vec<u8>>, idx: usize) -> bool {
    &&& idx < tensors.len()
    &&& tensors[idx as int].shape.len() == 2
    &&& tensors[idx as int].shape@[0] * tensors[idx as int].shape@[1] <= DIM_LIMIT
    &&& tensors[idx as int].element == ElemType::Int32
    &&& tensors[idx as int].quantization is Some
    &&& match tensors[idx as int].quantization {
        Some(q) => 1 <= q.scale_num <= SCALE_LIMIT && 1 <= q.scale_den <= SCALE_LIMIT
            && -0x80000000 <= q.zero_point <= 0x7fffffff,
        None => false,
    }
    &&& tensors[idx as int].buffer_index < buffers.len()
    &&& buffers[tensors[idx as int].buffer_index as int]@.len() == 4 * (tensors[
        idx as int
    ].shape@[0] * tensors[idx as int].shape@[1])
}

/// The first failure in extracting the 32-bit bias tensor.
pub open spec fn bias_err_spec(
    tensors: Seq<TensorRecord>,
    buffers: Seq<Vec<u8>>,
    idx: usize,
) -> CompileError {
    if idx >= tensors.len() {
        CompileError::MissingTensor { tensor: idx }
    } else {
        let t = tensors[idx as int];
        if t.shape.len() != 2 {
            CompileError::BadRank { tensor: idx }
        } else if t.shape@[0] * t.shape@[1] > DIM_LIMIT {
            CompileError::DimensionTooLarge { tensor: idx }
        } else if t.element != ElemType::Int32 {
            CompileError::BadElementType { tensor: idx }
        } else {
            match t.quantization {
                None => CompileError::MissingQuantization { tensor: idx },
                Some(q) => if q.scale_num < 1 || q.scale_num > SCALE_LIMIT || q.scale_den < 1
                    || q.scale_den > SCALE_LIMIT {
                    CompileError::InvalidScale { tensor: idx }
                } else if q.zero_point < -0x80000000 || q.zero_point > 0x7fffffff {
                    CompileError::BadZeroPoint { tensor: idx }
                } else if t.buffer_index >= buffers.len() {
                    CompileError::MissingBuffer { tensor: idx }
                } else {
                    CompileError::BadByteLength { tensor: idx }
                },
            }
        }
    }
}

/// How an extracted bias tensor relates to the model records.
pub open spec fn bias_matches(
    tensors: Seq<TensorRecord>,
    buffers: Seq<Vec<u8>>,
    idx: usize,
    b: BiasTensor,
) -> bool {
    let t = tensors[idx as int];
    let bytes = buffers[t.buffer_index as int]@;
    &&& match t.quantization {
        Some(q) => b.scale.num == q.scale_num && b.scale.den == q.scale_den && b.zero_point as int
            == q.zero_point,
        None => false,
    }
    &&& b.data@.len() == t.shape@[0] * t.shape@[1]
    &&& forall|k: int| 0 <= k < b.data@.len() ==> #[trigger] b.data@[k] == i32_of_le_bytes(bytes, k)
    &&& b.wf()
}

/// Extracts the bias tensor at `idx` together with its embedded payload,
/// decoded little-endian at width four into 32-bit elements.
pub fn bias_tensor(tensors: &Vec<TensorRecord>, buffers: &Vec<Vec<u8>>, idx: usize) -> (r: Result<
    BiasTensor,
    CompileError,
>)
    ensures
        r is Ok <==> bias_ok(tensors@, buffers@, idx),
        r matches Err(e) ==> e == bias_err_spec(tensors@, buffers@, idx),
        r matches Ok(b) ==> bias_matches(tensors@, buffers@, idx, b),
{
    if idx >= tensors.len() {
        return Err(CompileError::MissingTensor { tensor: idx });
    }
    let t = &tensors[idx];
    if t.shape.len() != 2 {
        return Err(CompileError::BadRank { tensor: idx });
    }
    let rows: usize = t.shape[0];
    let cols: usize = t.shape[1];
    let count: usize;
    if rows == 0 || cols == 0 {
        proof {
            assert(rows as int * cols as int == 0) by (nonlinear_arith)
                requires
                    rows == 0 || cols == 0,
            ;
        }
        count = 0;
    } else if rows > DIM_LIMIT || cols > DIM_LIMIT {
        proof {
            assert(rows as int * cols as int > DIM_LIMIT as int) by (nonlinear_arith)
                requires
                    rows >= 1,
                    cols >= 1,
                    rows > DIM_LIMIT || cols > DIM_LIMIT,
            ;
        }
        return Err(CompileError::DimensionTooLarge { tensor: idx });
    } else {
        proof {
            assert(rows as int * cols as int <= 0x40000000) by (nonlinear_arith)
                requires
                    rows <= 0x8000,
                    cols <= 0x8000,
            ;
        }
        let c: usize = rows * cols;
        if c > DIM_LIMIT {
            return Err(CompileError::DimensionTooLarge { tensor: idx });
        }
        count = c;
    }
    if t.element != ElemType::Int32 {
        return Err(CompileError::BadElementType { tensor: idx });
    }
    let q: QuantParams = match t.quantization {
        None => {
            return Err(CompileError::MissingQuantization { tensor: idx });
        },
        Some(q) => q,
    };
    if q.scale_num < 1 || q.scale_num > SCALE_LIMIT || q.scale_den < 1 || q.scale_den
        > SCALE_LIMIT {
        return Err(CompileError::InvalidScale { tensor: idx });
    }
    if q.zero_point < -0x80000000 || q.zero_point > 0x7fffffff {
        return Err(CompileError::BadZeroPoint { tensor: idx });
    }
    if t.buffer_index >= buffers.len() {
        return Err(CompileError::MissingBuffer { tensor: idx });
    }
    let bytes: &Vec<u8> = &buffers[t.buffer_index];
    if bytes.len() != 4 * count {
        return Err(CompileError::BadByteLength { tensor: idx });
    }
    let mut data: Vec<i32> = Vec::new();
    let mut k: usize = 0;
    while k < count
        invariant
            k <= count,
            count <= DIM_LIMIT,
            bytes@.len() == 4 * count,
            data@.len() == k,
            forall|k0: int| 0 <= k0 < k ==> #[trigger] data@[k0] == i32_of_le_bytes(bytes@, k0),
        decreases count - k,
    {
        let b0: i64 = bytes[4 * k] as i64;
        let b1: i64 = bytes[4 * k + 1] as i64;
        let b2: i64 = bytes[4 * k + 2] as i64;
        let b3: i64 = bytes[4 * k + 3] as i64;
        let v: i64 = b0 + 256 * b1 + 65536 * b2 + 16777216 * b3;
        let s: i64 = if v >= 0x80000000 {
            v - 0x100000000
        } else {
            v
        };
        data.push(s as i32);
        k = k + 1;
    }
    Ok(BiasTensor::new(data, Scale { num: q.scale_num, den: q.scale_den }, q.zero_point as i32))
}

/// The compile-time IR of one fully-connected operator: its operand
/// tensors and the constants folded for the runtime kernel.
#[derive(Clone, Debug)]
pub struct FullyConnected {
    pub input: TensorMeta,
    pub weights: Tensor2D,
    pub biases: BiasTensor,
    pub output: TensorMeta,
    pub activation: FusedActivation,
    pub constants: FoldedConstants,
}

impl FullyConnected {
    /// Folds the layer's compile-time-invariant arithmetic into the five
    /// constants of `folded_spec`, exactly: the rational constants are
    /// produced as numerators over the shared denominator.
    pub fn preprocess(
        input: &TensorMeta,
        weights: &Tensor2D,
        biases: &BiasTensor,
        output: &TensorMeta,
    ) -> (r: FoldedConstants)
        requires
            input.wf(),
            weights.wf(),
            biases.wf(),
            output.wf(),
            biases.data.len() == weights.buffer.cols,
        ensures
            folded_spec(*input, *weights, *biases, *output, r),
            r.wf(),
    {
        let b: i128 = input.scale.den as i128;
        let d: i128 = weights.scale.den as i128;
        let f: i128 = biases.scale.den as i128;
        let g: i128 = output.scale.num as i128;
        let a: i128 = input.scale.num as i128;
        let c: i128 = weights.scale.num as i128;
        let h: i128 = output.scale.den as i128;
        let e: i128 = biases.scale.num as i128;
        proof {
            lemma_mul_magnitude_bound(b as int, d as int, 0x100000, 0x100000);
            lemma_mul_positive(b as int, d as int);
            lemma_mul_magnitude_bound(b as int * d as int, f as int, 0x10000000000, 0x100000);
            lemma_mul_positive(b as int * d as int, f as int);
            lemma_mul_magnitude_bound(
                b as int * d as int * f as int,
                g as int,
                0x1000000000000000,
                0x100000,
            );
            lemma_mul_positive(b as int * d as int * f as int, g as int);
            lemma_mul_magnitude_bound(a as int, c as int, 0x100000, 0x100000);
            lemma_mul_positive(a as int, c as int);
            lemma_mul_magnitude_bound(a as int * c as int, h as int, 0x10000000000, 0x100000);
            lemma_mul_positive(a as int * c as int, h as int);
            lemma_mul_magnitude_bound(
                a as int * c as int * h as int,
                f as int,
                0x1000000000000000,
                0x100000,
            );
            lemma_mul_positive(a as int * c as int * h as int, f as int);
            lemma_mul_magnitude_bound(e as int, h as int, 0x100000, 0x100000);
            lemma_mul_positive(e as int, h as int);
            lemma_mul_magnitude_bound(e as int * h as int, b as int, 0x10000000000, 0x100000);
            lemma_mul_positive(e as int * h as int, b as int);
            lemma_mul_magnitude_bound(
                e as int * h as int * b as int,
                d as int,
                0x1000000000000000,
                0x100000,
            );
            lemma_mul_positive(e as int * h as int * b as int, d as int);
        }
        let den: i128 = b * d * f * g;
        let c2_num: i128 = a * c * h * f;
        let pre: i128 = e * h * b * d;
        let n: usize = weights.buffer.cols;
        let p: usize = weights.buffer.rows;
        let mut c1_num: Vec<i128> = Vec::new();
        let mut c3: Vec<i64> = Vec::new();
        let mut j: usize = 0;
        while j < n
            invariant
                j <= n,
                n == weights.buffer.cols,
                p == weights.buffer.rows,
                weights.wf(),
                biases.wf(),
                input.wf(),
                biases.data.len() == n,
                pre as int == biases.scale.num * output.scale.den * input.scale.den
                    * weights.scale.den,
                -0x100000000000000000000 <= pre as int <= 0x100000000000000000000,
                c1_num@.len() == j,
                c3@.len() == j,
                forall|j0: int|
                    0 <= j0 < j ==> #[trigger] c1_num@[j0] == pre as int * (biases.data@[j0]
                        - biases.zero_point),
                forall|j0: int|
                    0 <= j0 < j ==> -FOLD_C1_LIMIT <= #[trigger] c1_num@[j0] <= FOLD_C1_LIMIT,
                forall|j0: int|
                    0 <= j0 < j ==> #[trigger] c3@[j0] == input.zero_point * col_sum(
                        weights.buffer,
                        j0,
                        p as int,
                    ),
                forall|j0: int| 0 <= j0 < j ==> -FOLD_C3_LIMIT <= #[trigger] c3@[j0] <= FOLD_C3_LIMIT,
            decreases n - j,
        {
            let bj: i128 = (biases.data[j] as i128) - (biases.zero_point as i128);
            proof {
                lemma_mul_magnitude_bound(
                    pre as int,
                    bj as int,
                    0x100000000000000000000,
                    0x100000000,
                );
            }
            c1_num.push(pre * bj);
            let mut csum: i64 = 0;
            let mut k: usize = 0;
            while k < p
                invariant
                    k <= p,
                    j < n,
                    n == weights.buffer.cols,
                    p == weights.buffer.rows,
                    weights.wf(),
                    csum == col_sum(weights.buffer, j as int, k as int),
                    -(k as int * 128) <= csum as int <= k as int * 128,
                decreases p - k,
            {
                csum = csum + (weights.buffer.get(k, j) as i64);
                k = k + 1;
            }
            proof {
                lemma_mul_magnitude_bound(
                    input.zero_point as int,
                    csum as int,
                    128,
                    p as int * 128,
                );
                assert(128 * (p as int * 128) == p as int * 16384) by (nonlinear_arith);
                lemma_mul_inequality(p as int, DIM_LIMIT as int, 16384);
            }
            c3.push((input.zero_point as i64) * csum);
            j = j + 1;
        }
        proof {
            lemma_mul_magnitude_bound(p as int, input.zero_point as int, 0x8000, 128);
            lemma_mul_magnitude_bound(
                p as int * input.zero_point as int,
                weights.zero_point as int,
                0x400000,
                128,
            );
        }
        let c4: i64 = (p as i64) * (input.zero_point as i64) * (weights.zero_point as i64);
        FoldedConstants { c0: output.zero_point, c1_num, c2_num, c3, c4, den }
    }
}

/// Structural and shape conditions of one fully-connected operator beyond
/// its tensor extractions: the reduction dimensions agree, the bias count
/// matches the output width, and the output shape matches.
pub open spec fn fc_shapes_ok(op: OperatorRecord, tensors: Seq<TensorRecord>) -> bool {
    let wrec = tensors[op.inputs@[1] as int];
    let brec = tensors[op.inputs@[2] as int];
    match (tensor_meta_spec(tensors, op.inputs@[0]), tensor_meta_spec(tensors, op.outputs@[0])) {
        (Ok(im), Ok(om)) => {
            &&& im.cols == wrec.shape@[0]
            &&& brec.shape@[0] * brec.shape@[1] == wrec.shape@[1]
            &&& om.rows == im.rows
            &&& om.cols == wrec.shape@[1]
        },
        _ => false,
    }
}

/// Success conditions for building the IR of one fully-connected operator.
pub open spec fn fc_ok(op: OperatorRecord, tensors: Seq<TensorRecord>, buffers: Seq<Vec<u8>>) -> bool {
    &&& op.inputs.len() >= 3
    &&& op.outputs.len() >= 1
    &&& op.fused_activation is Some
    &&& tensor_meta_spec(tensors, op.inputs@[0]) is Ok
    &&& weights_ok(tensors, buffers, op.inputs@[1])
    &&& bias_ok(tensors, buffers, op.inputs@[2])
    &&& tensor_meta_spec(tensors, op.outputs@[0]) is Ok
    &&& fc_shapes_ok(op, tensors)
}

/// The first failure in building the IR of one fully-connected operator.
pub open spec fn fc_err_spec(
    op: OperatorRecord,
    index: usize,
    tensors: Seq<TensorRecord>,
    buffers: Seq<Vec<u8>>,
) -> CompileError {
    if op.inputs.len() < 3 || op.outputs.len() < 1 || op.fused_activation is None {
        CompileError::MalformedOperator { operator: index }
    } else {
        match tensor_meta_spec(tensors, op.inputs@[0]) {
            Err(e) => e,
            Ok(im) => if !weights_ok(tensors, buffers, op.inputs@[1]) {
                weights_err_spec(tensors, buffers, op.inputs@[1])
            } else if !bias_ok(tensors, buffers, op.inputs@[2]) {
                bias_err_spec(tensors, buffers, op.inputs@[2])
            } else {
                match tensor_meta_spec(tensors, op.outputs@[0]) {
                    Err(e) => e,
                    Ok(om) => CompileError::ShapeMismatch { operator: index },
                }
            },
        }
    }
}

/// How a built fully-connected IR relates to the model records: every
/// field is pinned to the corresponding record, and the constants are
/// exactly the folded ones.
pub open spec fn fc_matches(
    op: OperatorRecord,
    tensors: Seq<TensorRecord>,
    buffers: Seq<Vec<u8>>,
    fc: FullyConnected,
) -> bool {
    &&& tensor_meta_spec(tensors, op.inputs@[0]) == Ok::<TensorMeta, CompileError>(fc.input)
    &&& weights_matches(tensors, buffers, op.inputs@[1], fc.weights)
    &&& bias_matches(tensors, buffers, op.inputs@[2], fc.biases)
    &&& tensor_meta_spec(tensors, op.outputs@[0]) == Ok::<TensorMeta, CompileError>(fc.output)
    &&& match op.fused_activation {
        Some(a) => fc.activation == a,
        None => false,
    }
    &&& folded_spec(fc.input, fc.weights, fc.biases, fc.output, fc.constants)
    &&& fc.constants.wf()
    &&& fc.input.cols == fc.weights.buffer.rows
    &&& fc.biases.data@.len() == fc.weights.buffer.cols
    &&& fc.output.rows == fc.input.rows
    &&& fc.output.cols == fc.weights.buffer.cols
    &&& fc.input.wf()
    &&& fc.weights.wf()
    &&& fc.output.wf()
}

impl FullyConnected {
    /// Builds the IR of one fully-connected operator: extracts the input
    /// and output metadata, the weights with payload, the biases with
    /// payload, checks the operand shapes against each other, and folds
    /// the constants.
    pub fn new(
        operator: &OperatorRecord,
        operator_index: usize,
        tensors: &Vec<TensorRecord>,
        buffers: &Vec<Vec<u8>>,
    ) -> (r: Result<FullyConnected, CompileError>)
        ensures
            r is Ok <==> fc_ok(*operator, tensors@, buffers@),
            r matches Err(e) ==> e == fc_err_spec(*operator, operator_index, tensors@, buffers@),
            r matches Ok(fc) ==> fc_matches(*operator, tensors@, buffers@, fc),
    {
        if operator.inputs.len() < 3 || operator.outputs.len() < 1 {
            return Err(CompileError::MalformedOperator { operator: operator_index });
        }
        let activation: FusedActivation = match operator.fused_activation {
            None => {
                return Err(CompileError::MalformedOperator { operator: operator_index });
            },
            Some(a) => a,
        };
        let input: TensorMeta = match tensor_meta(tensors, operator.inputs[0]) {
            Ok(m) => m,
            Err(e) => {
                return Err(e);
            },
        };
        let weights: Tensor2D = match weights_tensor(tensors, buffers, operator.inputs[1]) {
            Ok(w) => w,
            Err(e) => {
                return Err(e);
            },
        };
        let biases: BiasTensor = match bias_tensor(tensors, buffers, operator.inputs[2]) {
            Ok(b) => b,
            Err(e) => {
                return Err(e);
            },
        };
        let output: TensorMeta = match tensor_meta(tensors, operator.outputs[0]) {
            Ok(m) => m,
            Err(e) => {
                return Err(e);
            },
        };
        if input.cols != weights.buffer.rows || biases.data.len() != weights.buffer.cols
            || output.rows != input.rows || output.cols != weights.buffer.cols {
            return Err(CompileError::ShapeMismatch { operator: operator_index });
        }
        let constants = FullyConnected::preprocess(&input, &weights, &biases, &output);
        Ok(FullyConnected { input, weights, biases, output, activation, constants })
    }
}

/// The IR of one supported operator. Quantize and dequantize bound the
/// pipeline and carry the quantized side's shape and quantization; the
/// fully-connected variant carries the full layer IR.
#[derive(Clone, Debug)]
pub enum OperatorIr {
    Quantize { output: TensorMeta },
    Dequantize { input: TensorMeta },
    FullyConnected(FullyConnected),
}

/// The shape an operator consumes, read from the model records: the
/// quantized-side shape for quantize/dequantize, the input tensor's shape
/// for a fully-connected layer. Meaningful only where `op_ok` holds.
pub open spec fn op_in_shape(op: OperatorRecord, tensors: Seq<TensorRecord>) -> (int, int) {
    if op.opcode == OP_QUANTIZE {
        (tensors[op.outputs@[0] as int].shape@[0] as int, tensors[op.outputs@[0] as int].shape@[1] as int)
    } else if op.opcode == OP_DEQUANTIZE {
        (tensors[op.inputs@[0] as int].shape@[0] as int, tensors[op.inputs@[0] as int].shape@[1] as int)
    } else {
        (tensors[op.inputs@[0] as int].shape@[0] as int, tensors[op.inputs@[0] as int].shape@[1] as int)
    }
}

/// The shape an operator produces, read from the model records.
pub open spec fn op_out_shape(op: OperatorRecord, tensors: Seq<TensorRecord>) -> (int, int) {
    if op.opcode == OP_FULLY_CONNECTED {
        (tensors[op.outputs@[0] as int].shape@[0] as int, tensors[op.outputs@[0] as int].shape@[1] as int)
    } else {
        op_in_shape(op, tensors)
    }
}

/// Success conditions for turning one operator record into IR.
pub open spec fn op_ok(op: OperatorRecord, tensors: Seq<TensorRecord>, buffers: Seq<Vec<u8>>) -> bool {
    if op.opcode == OP_QUANTIZE {
        op.outputs.len() >= 1 && tensor_meta_spec(tensors, op.outputs@[0]) is Ok
    } else if op.opcode == OP_DEQUANTIZE {
        op.inputs.len() >= 1 && tensor_meta_spec(tensors, op.inputs@[0]) is Ok
    } else if op.opcode == OP_FULLY_CONNECTED {
        fc_ok(op, tensors, buffers)
    } else {
        false
    }
}

/// The error produced for one operator record that cannot become IR.
pub open spec fn op_err_spec(
    op: OperatorRecord,
    index: usize,
    tensors: Seq<TensorRecord>,
    buffers: Seq<Vec<u8>>,
) -> CompileError {
    if op.opcode == OP_QUANTIZE {
        if op.outputs.len() < 1 {
            CompileError::MalformedOperator { operator: index }
        } else {
            match tensor_meta_spec(tensors, op.outputs@[0]) {
                Err(e) => e,
                Ok(m) => CompileError::MalformedOperator { operator: index },
            }
        }
    } else if op.opcode == OP_DEQUANTIZE {
        if op.inputs.len() < 1 {
            CompileError::MalformedOperator { operator: index }
        } else {
            match tensor_meta_spec(tensors, op.inputs@[0]) {
                Err(e) => e,
                Ok(m) => CompileError::MalformedOperator { operator: index },
            }
        }
    } else if op.opcode == OP_FULLY_CONNECTED {
        fc_err_spec(op, index, tensors, buffers)
    } else {
        CompileError::UnsupportedOperator { operator: index, opcode: op.opcode }
    }
}

/// How a built IR relates to its operator record.
pub open spec fn ir_matches(
    op: OperatorRecord,
    tensors: Seq<TensorRecord>,
    buffers: Seq<Vec<u8>>,
    ir: OperatorIr,
) -> bool {
    match ir {
        OperatorIr::Quantize { output } => op.opcode == OP_QUANTIZE && tensor_meta_spec(
            tensors,
            op.outputs@[0],
        ) == Ok::<TensorMeta, CompileError>(output),
        OperatorIr::Dequantize { input } => op.opcode == OP_DEQUANTIZE && tensor_meta_spec(
            tensors,
            op.inputs@[0],
        ) == Ok::<TensorMeta, CompileError>(input),
        OperatorIr::FullyConnected(fc) => op.opcode == OP_FULLY_CONNECTED && fc_matches(
            op,
            tensors,
            buffers,
            fc,
        ),
    }
}

/// Every operator with a code outside the supported set is rejected, with
/// the error naming its index and code; no unsupported operator is ever
/// skipped silently.
pub proof fn lemma_unsupported_operator_rejected(
    op: OperatorRecord,
    index: usize,
    tensors: Seq<TensorRecord>,
    buffers: Seq<Vec<u8>>,
)
    requires
        !is_supported_op(op.opcode),
    ensures
        !op_ok(op, tensors, buffers),
        op_err_spec(op, index, tensors, buffers) == (CompileError::UnsupportedOperator {
            operator: index,
            opcode: op.opcode,
        }),
{
}

/// Turns one operator record into IR: quantize and dequantize keep the
/// quantized side's metadata, a fully-connected operator is fully
/// extracted and folded, and any other operator code fails with
/// `UnsupportedOperator`.
pub fn parse_operator(
    operator: &OperatorRecord,
    operator_index: usize,
    tensors: &Vec<TensorRecord>,
    buffers: &Vec<Vec<u8>>,
) -> (r: Result<OperatorIr, CompileError>)
    ensures
        r is Ok <==> op_ok(*operator, tensors@, buffers@),
        r matches Err(e) ==> e == op_err_spec(*operator, operator_index, tensors@, buffers@),
        r matches Ok(ir) ==> ir_matches(*operator, tensors@, buffers@, ir),
{
    if operator.opcode == OP_QUANTIZE {
        if operator.outputs.len() < 1 {
            return Err(CompileError::MalformedOperator { operator: operator_index });
        }
        match tensor_meta(tensors, operator.outputs[0]) {
            Ok(m) => Ok(OperatorIr::Quantize { output: m }),
            Err(e) => Err(e),
        }
    } else if operator.opcode == OP_DEQUANTIZE {
        if operator.inputs.len() < 1 {
            return Err(CompileError::MalformedOperator { operator: operator_index });
        }
        match tensor_meta(tensors, operator.inputs[0]) {
            Ok(m) => Ok(OperatorIr::Dequantize { input: m }),
            Err(e) => Err(e),
        }
    } else if operator.opcode == OP_FULLY_CONNECTED {
        match FullyConnected::new(operator, operator_index, tensors, buffers) {
            Ok(fc) => Ok(OperatorIr::FullyConnected(fc)),
            Err(e) => Err(e),
        }
    } else {
        Err(
            CompileError::UnsupportedOperator {
                operator: operator_index,
                opcode: operator.opcode,
            },
        )
    }
}

/// The shape a built IR consumes.
pub open spec fn ir_in_shape(ir: OperatorIr) -> (int, int) {
    match ir {
        OperatorIr::Quantize { output } => (output.rows as int, output.cols as int),
        OperatorIr::Dequantize { input } => (input.rows as int, input.cols as int),
        OperatorIr::FullyConnected(fc) => (fc.input.rows as int, fc.input.cols as int),
    }
}

/// The shape a built IR produces.
pub open spec fn ir_out_shape(ir: OperatorIr) -> (int, int) {
    match ir {
        OperatorIr::Quantize { output } => (output.rows as int, output.cols as int),
        OperatorIr::Dequantize { input } => (input.rows as int, input.cols as int),
        OperatorIr::FullyConnected(fc) => (fc.output.rows as int, fc.output.cols as int),
    }
}

/// A built IR carries exactly the shapes its operator record declares.
pub proof fn lemma_ir_shapes(
    op: OperatorRecord,
    tensors: Seq<TensorRecord>,
    buffers: Seq<Vec<u8>>,
    ir: OperatorIr,
)
    requires
        ir_matches(op, tensors, buffers, ir),
    ensures
        ir_in_shape(ir) == op_in_shape(op, tensors),
        ir_out_shape(ir) == op_out_shape(op, tensors),
{
}

/// Reads the shape a built IR consumes.
pub fn ir_in_shape_read(ir: &OperatorIr) -> (r: (usize, usize))
    ensures
        (r.0 as int, r.1 as int) == ir_in_shape(*ir),
{
    match ir {
        OperatorIr::Quantize { output } => (output.rows, output.cols),
        OperatorIr::Dequantize { input } => (input.rows, input.cols),
        OperatorIr::FullyConnected(fc) => (fc.input.rows, fc.input.cols),
    }
}

/// Reads the shape a built IR produces.
pub fn ir_out_shape_read(ir: &OperatorIr) -> (r: (usize, usize))
    ensures
        (r.0 as int, r.1 as int) == ir_out_shape(*ir),
{
    match ir {
        OperatorIr::Quantize { output } => (output.rows, output.cols),
        OperatorIr::Dequantize { input } => (input.rows, input.cols),
        OperatorIr::FullyConnected(fc) => (fc.output.rows, fc.output.cols),
    }
}

/// One step of the model walk succeeds when the operator itself becomes
/// IR and its consumed shape matches what the previous operator produced.
pub open spec fn step_ok(
    ops: Seq<OperatorRecord>,
    tensors: Seq<TensorRecord>,
    buffers: Seq<Vec<u8>>,
    i: int,
) -> bool {
    &&& op_ok(ops[i], tensors, buffers)
    &&& (i == 0 || op_out_shape(ops[i - 1], tensors) == op_in_shape(ops[i], tensors))
}

/// The error one failing step of the model walk produces.
pub open spec fn step_err_spec(
    ops: Seq<OperatorRecord>,
    tensors: Seq<TensorRecord>,
    buffers: Seq<Vec<u8>>,
    i: int,
) -> CompileError {
    if !op_ok(ops[i], tensors, buffers) {
        op_err_spec(ops[i], i as usize, tensors, buffers)
    } else {
        CompileError::ShapeMismatch { operator: i as usize }
    }
}

/// Walks the model's operators in order and builds the IR of each,
/// checking that every consumed shape matches the previously produced
/// one. Compilation is all or nothing: the first failing operator aborts
/// the walk with its error and no partial IR is returned.
pub fn build_model_ir(
    operators: &Vec<OperatorRecord>,
    tensors: &Vec<TensorRecord>,
    buffers: &Vec<Vec<u8>>,
) -> (r: Result<Vec<OperatorIr>, CompileError>)
    ensures
        r is Ok <==> (forall|i: int|
            0 <= i < operators@.len() ==> step_ok(operators@, tensors@, buffers@, i)),
        r matches Ok(v) ==> v@.len() == operators@.len() && (forall|i: int|
            0 <= i < operators@.len() ==> ir_matches(operators@[i], tensors@, buffers@, #[trigger] v@[i])),
        r matches Err(e) ==> exists|i: int|
            0 <= i < operators@.len() && !step_ok(operators@, tensors@, buffers@, i) && (forall|
                i0: int,
            | 0 <= i0 < i ==> #[trigger] step_ok(operators@, tensors@, buffers@, i0)) && e
                == step_err_spec(operators@, tensors@, buffers@, i),
{
    let mut irs: Vec<OperatorIr> = Vec::new();
    let mut i: usize = 0;
    while i < operators.len()
        invariant
            i <= operators@.len(),
            irs@.len() == i,
            forall|i0: int| 0 <= i0 < i ==> #[trigger] step_ok(operators@, tensors@, buffers@, i0),
            forall|i0: int|
                0 <= i0 < i ==> ir_matches(operators@[i0], tensors@, buffers@, #[trigger] irs@[i0]),
        decreases operators@.len() - i,
    {
        let op = &operators[i];
        let ir: OperatorIr = match parse_operator(op, i, tensors, buffers) {
            Ok(ir) => ir,
            Err(e) => {
                proof {
                    let ii = i as int;
                    assert(!step_ok(operators@, tensors@, buffers@, ii));
                    assert(e == step_err_spec(operators@, tensors@, buffers@, ii));
                }
                return Err(e);
            },
        };
        if i > 0 {
            let prev = ir_out_shape_read(&irs[i - 1]);
            let cur = ir_in_shape_read(&ir);
            if prev.0 != cur.0 || prev.1 != cur.1 {
                proof {
                    let ii = i as int;
                    lemma_ir_shapes(operators@[ii - 1], tensors@, buffers@, irs@[ii - 1]);
                    lemma_ir_shapes(operators@[ii], tensors@, buffers@, ir);
                    assert(!step_ok(operators@, tensors@, buffers@, ii));
                    assert(step_err_spec(operators@, tensors@, buffers@, ii)
                        == (CompileError::ShapeMismatch { operator: i }));
                }
                return Err(CompileError::ShapeMismatch { operator: i });
            }
            proof {
                let ii = i as int;
                lemma_ir_shapes(operators@[ii - 1], tensors@, buffers@, irs@[ii - 1]);
                lemma_ir_shapes(operators@[ii], tensors@, buffers@, ir);
            }
        }
        irs.push(ir);
        i = i + 1;
    }
    Ok(irs)
}

} // verus!
