use microflow::activation::{apply_activation, relu, relu6, relu6_upper, FusedActivation};
use microflow::quantize::{
    clamp_i8, dequantize, dequantize_buffer, quantize, quantize_buffer, round_half_away, Scale,
};

#[test]
fn buffer_quantization_works_elementwise() {
    // Real values 0.5, 1.3, -0.6 as fractions over 10, scale 1/2, zero
    // point 4: round(x / 0.5) + 4 elementwise.
    let s = Scale::new(1, 2);
    let q = quantize_buffer(&vec![5, 13, -6], 10, &s, 4);
    assert_eq!(q, vec![5, 7, 3]);
    // Dequantizing recovers 0.5, 1.5, -0.5: numerators over scale.den = 2.
    let (nums, den) = dequantize_buffer(&q, &s, 4);
    assert_eq!(nums, vec![1, 3, -1]);
    assert_eq!(den, 2);
}

#[test]
fn round_half_away_rounds_ties_away_from_zero() {
    assert_eq!(round_half_away(5, 2), 3); // 2.5 -> 3
    assert_eq!(round_half_away(-5, 2), -3); // -2.5 -> -3
    assert_eq!(round_half_away(3, 2), 2); // 1.5 -> 2
    assert_eq!(round_half_away(1, 2), 1); // 0.5 -> 1
    assert_eq!(round_half_away(-1, 2), -1); // -0.5 -> -1
    assert_eq!(round_half_away(4, 2), 2); // exact
    assert_eq!(round_half_away(0, 7), 0);
    assert_eq!(round_half_away(10, 3), 3); // 3.33 -> 3
    assert_eq!(round_half_away(11, 3), 4); // 3.67 -> 4
}

#[test]
fn clamp_saturates_at_the_type_boundary() {
    assert_eq!(clamp_i8(200), 127);
    assert_eq!(clamp_i8(-200), -128);
    assert_eq!(clamp_i8(17), 17);
}

#[test]
fn quantize_matches_the_affine_formula() {
    // x = 1.3, scale = 1/2, zero point 0: round(1.3 / 0.5) = round(2.6) = 3.
    let s = Scale::new(1, 2);
    assert_eq!(quantize(13, 10, &s, 0), 3);
    // The dequantized image is 3 * 0.5 = 1.5, within scale/2 = 0.25 of 1.3.
    assert_eq!(dequantize(3, &s, 0), (3, 2));
    // A nonzero zero point shifts the result.
    assert_eq!(quantize(13, 10, &s, 5), 8);
}

#[test]
fn quantize_clamps_at_the_type_boundary() {
    let s = Scale::new(1, 2);
    assert_eq!(quantize(1000, 1, &s, 0), 127);
    assert_eq!(quantize(-1000, 1, &s, 0), -128);
}

#[test]
fn quantize_fixture_input_scale() {
    // The end-to-end fixture's input quantization: scale 0.7, zero point 8.
    // Real 0.7 quantizes to round(0.7 / 0.7) + 8 = 9.
    let s = Scale::new(7, 10);
    assert_eq!(quantize(7, 10, &s, 8), 9);
    // Real 0 quantizes to the zero point itself.
    assert_eq!(quantize(0, 1, &s, 8), 8);
    // And the zero point dequantizes back to real 0.
    assert_eq!(dequantize(8, &s, 8), (0, 10));
}

#[test]
fn relu_clamps_below_the_zero_point() {
    assert_eq!(relu(5, 10), 10);
    assert_eq!(relu(12, 10), 12);
    assert_eq!(relu(-20, -3), -3);
    assert_eq!(relu(10, 10), 10);
}

#[test]
fn relu6_clamps_into_the_quantized_six_band() {
    // scale = 1/2: the real threshold 6 is 12 quantized steps, so the band
    // is [zero_point, zero_point + 12].
    let s = Scale::new(1, 2);
    assert_eq!(relu6_upper(&s, 3), 15);
    assert_eq!(relu6(20, &s, 3), 15);
    assert_eq!(relu6(-5, &s, 3), 3);
    assert_eq!(relu6(10, &s, 3), 10);
    // A large scale collapses the band to the zero point alone:
    // round(6 / 100) = 0.
    let wide = Scale::new(100, 1);
    assert_eq!(relu6_upper(&wide, 4), 4);
    assert_eq!(relu6(90, &wide, 4), 4);
}

#[test]
fn apply_activation_dispatches_on_the_kind() {
    let s = Scale::new(1, 2);
    assert_eq!(apply_activation(FusedActivation::NONE, -7, &s, 0), -7);
    assert_eq!(apply_activation(FusedActivation::RELU, -7, &s, 0), 0);
    assert_eq!(apply_activation(FusedActivation::RELU6, 100, &s, 0), 12);
}
