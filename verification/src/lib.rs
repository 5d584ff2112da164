//! Compile-time support for running small quantized neural networks on
//! microcontroller-class targets: affine quantization arithmetic, fused
//! activations, the fully-connected kernel, constant folding, and the
//! extraction of operator records from a decoded model.
//!
//! All arithmetic is exact: scales are strictly positive rationals held as
//! integer pairs, and rounding is round-half-away-from-zero, so every result
//! is pinned down to the bit.

pub mod activation;
pub mod buffer;
pub mod layers;
pub mod ops;
pub mod quantize;
pub mod tensor;
