use microflow::activation::FusedActivation;
use microflow::layers::{
    build_model_ir, parse_operator, CompileError, ElemType, FullyConnected, OperatorIr,
    OperatorRecord, QuantParams, TensorRecord, OP_DEQUANTIZE, OP_FULLY_CONNECTED, OP_QUANTIZE,
};
use microflow::ops::fully_connected::{fully_connected, FullyConnectedOptions};
use microflow::quantize::Scale;

fn quantized_record(rows: usize, cols: usize, num: u32, den: u32, zp: i64) -> TensorRecord {
    TensorRecord {
        shape: vec![rows, cols],
        element: ElemType::Int8,
        buffer_index: 0,
        quantization: Some(QuantParams {
            scale_num: num,
            scale_den: den,
            zero_point: zp,
        }),
    }
}

/// The end-to-end fixture as a decoded model: quantize, one
/// fully-connected layer, dequantize.
fn fixture_model() -> (Vec<OperatorRecord>, Vec<TensorRecord>, Vec<Vec<u8>>) {
    let weights_bytes: Vec<u8> = vec![9, 10, 11, 12, 13, 14, 15, 16, 17, 18, 19, 20];
    let mut bias_bytes: Vec<u8> = Vec::new();
    for b in [23i32, 24, 25, 26] {
        bias_bytes.extend_from_slice(&b.to_le_bytes());
    }
    let buffers = vec![Vec::new(), weights_bytes, bias_bytes];
    let tensors = vec![
        // 0: the model's real-valued entry (never extracted)
        TensorRecord {
            shape: vec![2, 3],
            element: ElemType::Float32,
            buffer_index: 0,
            quantization: None,
        },
        // 1: quantized input, scale 0.7, zero point 8
        quantized_record(2, 3, 7, 10, 8),
        // 2: weights, scale 0.21, zero point 22
        TensorRecord {
            shape: vec![3, 4],
            element: ElemType::Int8,
            buffer_index: 1,
            quantization: Some(QuantParams {
                scale_num: 21,
                scale_den: 100,
                zero_point: 22,
            }),
        },
        // 3: biases, scale 0.27, zero point 28
        TensorRecord {
            shape: vec![4, 1],
            element: ElemType::Int32,
            buffer_index: 2,
            quantization: Some(QuantParams {
                scale_num: 27,
                scale_den: 100,
                zero_point: 28,
            }),
        },
        // 4: quantized output, scale 0.29, zero point 30
        quantized_record(2, 4, 29, 100, 30),
        // 5: the model's real-valued exit (never extracted)
        TensorRecord {
            shape: vec![2, 4],
            element: ElemType::Float32,
            buffer_index: 0,
            quantization: None,
        },
    ];
    let operators = vec![
        OperatorRecord {
            opcode: OP_QUANTIZE,
            inputs: vec![0],
            outputs: vec![1],
            fused_activation: None,
        },
        OperatorRecord {
            opcode: OP_FULLY_CONNECTED,
            inputs: vec![1, 2, 3],
            outputs: vec![4],
            fused_activation: Some(FusedActivation::RELU),
        },
        OperatorRecord {
            opcode: OP_DEQUANTIZE,
            inputs: vec![4],
            outputs: vec![5],
            fused_activation: None,
        },
    ];
    (operators, tensors, buffers)
}

#[test]
fn end_to_end_fixture_compiles_and_runs() {
    let (operators, tensors, buffers) = fixture_model();
    let irs = build_model_ir(&operators, &tensors, &buffers).unwrap();
    assert_eq!(irs.len(), 3);
    let fc = match &irs[1] {
        OperatorIr::FullyConnected(fc) => fc,
        _ => panic!("expected a fully-connected layer"),
    };
    assert_eq!(fc.constants.den, 2_900_000);
    assert_eq!(
        fc.constants.c1_num,
        vec![-13_500_000i128, -10_800_000, -8_100_000, -5_400_000]
    );
    assert_eq!(fc.constants.c2_num, 1_470_000);
    assert_eq!(fc.constants.c3, vec![312, 336, 360, 384]);
    assert_eq!(fc.constants.c4, 528);
    // Run the layer on the fixture input in the quantized domain.
    let input = microflow::tensor::Tensor2D::new(
        microflow::buffer::Buffer2D::new(2, 3, vec![1, 2, 3, 4, 5, 6]),
        Scale::new(7, 10),
        8,
    );
    let output = fully_connected(
        &input,
        &fc.weights,
        fc.output.scale,
        fc.output.zero_point,
        FullyConnectedOptions {
            fused_activation: fc.activation,
        },
        &fc.constants,
    );
    let expected: [[i8; 4]; 2] = [[112, 103, 95, 87], [70, 67, 63, 60]];
    for i in 0..2 {
        for j in 0..4 {
            assert_eq!(output.buffer.get(i, j), expected[i][j]);
        }
    }
    assert_eq!(output.zero_point, 30);
}

#[test]
fn unsupported_operator_fails_compilation() {
    let (mut operators, tensors, buffers) = fixture_model();
    operators[1].opcode = 42;
    let err = build_model_ir(&operators, &tensors, &buffers).unwrap_err();
    assert_eq!(
        err,
        CompileError::UnsupportedOperator {
            operator: 1,
            opcode: 42
        }
    );
}

#[test]
fn missing_quantization_fails_extraction() {
    let (operators, mut tensors, buffers) = fixture_model();
    tensors[1].quantization = None;
    let err = build_model_ir(&operators, &tensors, &buffers).unwrap_err();
    assert_eq!(err, CompileError::MissingQuantization { tensor: 1 });
}

#[test]
fn rank_other_than_two_fails_extraction() {
    let (operators, mut tensors, buffers) = fixture_model();
    tensors[4].shape = vec![8];
    let err = build_model_ir(&operators, &tensors, &buffers).unwrap_err();
    assert_eq!(err, CompileError::BadRank { tensor: 4 });
}

#[test]
fn zero_scale_fails_extraction() {
    let (operators, mut tensors, buffers) = fixture_model();
    if let Some(q) = &mut tensors[2].quantization {
        q.scale_num = 0;
    }
    let err = build_model_ir(&operators, &tensors, &buffers).unwrap_err();
    assert_eq!(err, CompileError::InvalidScale { tensor: 2 });
}

#[test]
fn out_of_range_zero_point_fails_extraction() {
    let (operators, mut tensors, buffers) = fixture_model();
    if let Some(q) = &mut tensors[1].quantization {
        q.zero_point = 300;
    }
    let err = build_model_ir(&operators, &tensors, &buffers).unwrap_err();
    assert_eq!(err, CompileError::BadZeroPoint { tensor: 1 });
}

#[test]
fn wrong_payload_length_fails_extraction() {
    let (operators, tensors, mut buffers) = fixture_model();
    buffers[1].pop();
    let err = build_model_ir(&operators, &tensors, &buffers).unwrap_err();
    assert_eq!(err, CompileError::BadByteLength { tensor: 2 });
}

#[test]
fn missing_buffer_fails_extraction() {
    let (operators, mut tensors, buffers) = fixture_model();
    tensors[2].buffer_index = 9;
    let err = build_model_ir(&operators, &tensors, &buffers).unwrap_err();
    assert_eq!(err, CompileError::MissingBuffer { tensor: 2 });
}

#[test]
fn missing_operand_fails_extraction() {
    let (mut operators, tensors, buffers) = fixture_model();
    operators[1].inputs = vec![1, 2];
    let err = build_model_ir(&operators, &tensors, &buffers).unwrap_err();
    assert_eq!(err, CompileError::MalformedOperator { operator: 1 });
}

#[test]
fn incompatible_chained_shapes_fail_compilation() {
    let (mut operators, mut tensors, buffers) = fixture_model();
    // The quantize boundary now produces 4x3 while the layer consumes 2x3.
    tensors.push(quantized_record(4, 3, 7, 10, 8));
    operators[0].outputs = vec![6];
    let err = build_model_ir(&operators, &tensors, &buffers).unwrap_err();
    assert_eq!(err, CompileError::ShapeMismatch { operator: 1 });
}

#[test]
fn operand_shapes_must_agree_within_a_layer() {
    let (operators, mut tensors, mut buffers) = fixture_model();
    // Biases: five entries against four output columns.
    tensors[3].shape = vec![5, 1];
    let mut bias_bytes: Vec<u8> = Vec::new();
    for b in [23i32, 24, 25, 26, 27] {
        bias_bytes.extend_from_slice(&b.to_le_bytes());
    }
    buffers[2] = bias_bytes;
    let err = build_model_ir(&operators, &tensors, &buffers).unwrap_err();
    assert_eq!(err, CompileError::ShapeMismatch { operator: 1 });
}

#[test]
fn little_endian_payloads_decode_signed() {
    let (operators, tensors, mut buffers) = fixture_model();
    // A negative bias: -2 is fc fe ff ff little-endian.
    buffers[2] = vec![
        0xfe, 0xff, 0xff, 0xff, 24, 0, 0, 0, 25, 0, 0, 0, 26, 0, 0, 0,
    ];
    // A negative weight in the top-left corner: 0xf7 decodes to -9.
    buffers[1][0] = 0xf7;
    let op = &operators[1];
    let fc = FullyConnected::new(op, 1, &tensors, &buffers).unwrap();
    assert_eq!(fc.biases.data[0], -2);
    assert_eq!(fc.weights.buffer.get(0, 0), -9);
}

#[test]
fn parse_operator_keeps_the_boundary_metadata() {
    let (operators, tensors, buffers) = fixture_model();
    let ir = parse_operator(&operators[0], 0, &tensors, &buffers).unwrap();
    match ir {
        OperatorIr::Quantize { output } => {
            assert_eq!(output.rows, 2);
            assert_eq!(output.cols, 3);
            assert_eq!(output.scale, Scale::new(7, 10));
            assert_eq!(output.zero_point, 8);
        }
        _ => panic!("expected a quantize boundary"),
    }
    let ir = parse_operator(&operators[2], 2, &tensors, &buffers).unwrap();
    match ir {
        OperatorIr::Dequantize { input } => {
            assert_eq!(input.rows, 2);
            assert_eq!(input.cols, 4);
        }
        _ => panic!("expected a dequantize boundary"),
    }
}
