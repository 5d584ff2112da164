use microflow::activation::FusedActivation;
use microflow::buffer::Buffer2D;
use microflow::layers::FullyConnected;
use microflow::ops::fully_connected::{fully_connected, FoldedConstants, FullyConnectedOptions};
use microflow::quantize::Scale;
use microflow::tensor::{BiasTensor, Tensor2D, TensorMeta};

fn fixture_input() -> Tensor2D {
    Tensor2D::new(
        Buffer2D::new(2, 3, vec![1, 2, 3, 4, 5, 6]),
        Scale::new(7, 10),
        8,
    )
}

fn fixture_weights() -> Tensor2D {
    Tensor2D::new(
        Buffer2D::new(3, 4, vec![9, 10, 11, 12, 13, 14, 15, 16, 17, 18, 19, 20]),
        Scale::new(21, 100),
        22,
    )
}

fn fixture_biases() -> BiasTensor {
    BiasTensor::new(vec![23, 24, 25, 26], Scale::new(27, 100), 28)
}

fn fixture_constants() -> FoldedConstants {
    let input_meta = TensorMeta::new(2, 3, Scale::new(7, 10), 8);
    let output_meta = TensorMeta::new(2, 4, Scale::new(29, 100), 30);
    FullyConnected::preprocess(
        &input_meta,
        &fixture_weights(),
        &fixture_biases(),
        &output_meta,
    )
}

#[test]
fn preprocess_folds_the_fixture_constants() {
    let c = fixture_constants();
    assert_eq!(c.c0, 30);
    // The shared denominator is 10 * 100 * 100 * 29.
    assert_eq!(c.den, 2_900_000);
    // C1 = [-4.655, -3.724, -2.793, -1.862] exactly, over that denominator.
    assert_eq!(
        c.c1_num,
        vec![-13_500_000i128, -10_800_000, -8_100_000, -5_400_000]
    );
    // C2 = 0.5068966 exactly: 1_470_000 / 2_900_000.
    assert_eq!(c.c2_num, 1_470_000);
    assert_eq!(c.c3, vec![312, 336, 360, 384]);
    assert_eq!(c.c4, 528);
}

#[test]
fn fully_connected_layer() {
    let output = fully_connected(
        &fixture_input(),
        &fixture_weights(),
        Scale::new(29, 100),
        30,
        FullyConnectedOptions {
            fused_activation: FusedActivation::RELU,
        },
        &fixture_constants(),
    );
    assert_eq!(output.buffer.rows, 2);
    assert_eq!(output.buffer.cols, 4);
    let expected: [[i8; 4]; 2] = [[112, 103, 95, 87], [70, 67, 63, 60]];
    for i in 0..2 {
        for j in 0..4 {
            assert_eq!(output.buffer.get(i, j), expected[i][j]);
        }
    }
    assert_eq!(output.scale, Scale::new(29, 100));
    assert_eq!(output.zero_point, 30);
}

#[test]
fn fully_connected_is_deterministic() {
    let run = || {
        fully_connected(
            &fixture_input(),
            &fixture_weights(),
            Scale::new(29, 100),
            30,
            FullyConnectedOptions {
                fused_activation: FusedActivation::RELU,
            },
            &fixture_constants(),
        )
    };
    let a = run();
    let b = run();
    assert_eq!(a.buffer.data, b.buffer.data);
    assert_eq!(a.scale, b.scale);
    assert_eq!(a.zero_point, b.zero_point);
}

#[test]
fn fully_connected_applies_no_activation_when_none() {
    // With NONE the raw rounded values appear; every fixture value lies
    // above the zero point, so they coincide with the RELU output here.
    let output = fully_connected(
        &fixture_input(),
        &fixture_weights(),
        Scale::new(29, 100),
        30,
        FullyConnectedOptions {
            fused_activation: FusedActivation::NONE,
        },
        &fixture_constants(),
    );
    let expected: [[i8; 4]; 2] = [[112, 103, 95, 87], [70, 67, 63, 60]];
    for i in 0..2 {
        for j in 0..4 {
            assert_eq!(output.buffer.get(i, j), expected[i][j]);
        }
    }
}

#[test]
fn dispatcher_matches_the_kernel() {
    let via_ops = microflow::ops::fully_connected(
        &fixture_input(),
        &fixture_weights(),
        Scale::new(29, 100),
        30,
        FusedActivation::RELU,
        &fixture_constants(),
    );
    let direct = fully_connected(
        &fixture_input(),
        &fixture_weights(),
        Scale::new(29, 100),
        30,
        FullyConnectedOptions {
            fused_activation: FusedActivation::RELU,
        },
        &fixture_constants(),
    );
    assert_eq!(via_ops.buffer.data, direct.buffer.data);
}
