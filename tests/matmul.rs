use onnx_ir::matmul::{MatmulError, QuantizedTensor, matmul};

/// A tensor quantized to int8 with a symmetric per-tensor scale.
struct QTensor {
    tensor: QuantizedTensor,
    scale: f32,
}

fn int8(values: &[f32], shape: Vec<usize>) -> QTensor {
    let max_abs = values.iter().fold(0.0f32, |m, v| m.max(v.abs()));
    let scale = if max_abs == 0.0 { 1.0 } else { max_abs / 127.0 };
    let values = values
        .iter()
        .map(|v| (v / scale).round().clamp(-127.0, 127.0) as i8)
        .collect();
    QTensor { tensor: QuantizedTensor { shape, values }, scale }
}

fn qmatmul(lhs: &QTensor, rhs: &QTensor) -> (Vec<usize>, Vec<f32>) {
    let out = match matmul(&lhs.tensor, &rhs.tensor) {
        Ok(out) => out,
        Err(e) => panic!("matmul failed: {:?}", e),
    };
    let scale = lhs.scale * rhs.scale;
    (out.shape, out.values.iter().map(|v| *v as f32 * scale).collect())
}

fn assert_approx_eq(actual: &[f32], expected: &[f32]) {
    assert_eq!(actual.len(), expected.len());
    for (a, e) in actual.iter().zip(expected) {
        let diff = (a - e).abs();
        assert!(
            diff <= 1e-1 + 1e-2 * a.abs().max(e.abs()),
            "{} is not close to {}",
            a,
            e
        );
    }
}

#[test]
fn test_matmul_vectors() {
    let tensor_1 = int8(&[1.0, 2.0, 3.0, 6.35], vec![1, 4]);
    let tensor_2 = int8(&[12.7, 4.0, 5.0, 1.0], vec![4, 1]);

    let (shape, tensor_3) = qmatmul(&tensor_1, &tensor_2);

    assert_eq!(shape, vec![1, 1]);
    assert_approx_eq(&tensor_3, &[42.05]);
}

#[test]
fn test_matmul_2d() {
    let tensor_1 = int8(&[1.0, 6.35, 2.0, 3.0, 1.0, 3.0], vec![3, 2]);
    let tensor_2 = int8(&[4.0, 8.0, 12.7, 2.0, 3.0, 6.0], vec![2, 3]);
    let (shape, tensor_3) = qmatmul(&tensor_1, &tensor_2);

    let expected = [16.7, 27.05, 50.8, 14., 25., 43.4, 10., 17., 30.7];
    assert_eq!(shape, vec![3, 3]);
    assert_approx_eq(&tensor_3, &expected);
}

#[test]
fn test_matmul_3d() {
    let tensor_1 = int8(&[1.0, 6.35, 2.0, 3.0], vec![1, 2, 2]);
    let tensor_2 = int8(&[12.7, 4.0, 2.0, 3.0], vec![1, 2, 2]);

    let (shape, tensor_3) = qmatmul(&tensor_1, &tensor_2);

    let expected = [25.4, 23.05, 31.4, 17.0];
    assert_eq!(shape, vec![1, 2, 2]);
    assert_approx_eq(&tensor_3, &expected);
}

#[test]
fn test_matmul_broadcast_4d() {
    let tensor_1 = int8(&[1.0, 7.0, 2.0, 3.0, 2.0, 5.0, 6.0, 3.0], vec![2, 1, 2, 2]);
    let tensor_2 = int8(&[9.0, 8.0, 1.0, 4.0, 2.0, 7.0, 3.0, 5.0], vec![1, 2, 2, 2]);

    // [2, 1, 2, 2] @ [1, 2, 2, 2] -> [2, 2, 2, 2]
    let (shape, tensor_3) = qmatmul(&tensor_1, &tensor_2);
    let expected = [
        16.0, 36.0, 21.0, 28.0, 23.0, 42.0, 13.0, 29.0, 23.0, 36.0, 57.0, 60.0, 19.0, 39.0, 21.0,
        57.0,
    ];

    assert_eq!(shape, vec![2, 2, 2, 2]);
    assert_approx_eq(&tensor_3, &expected);
}

#[test]
fn test_matmul_broadcast() {
    let tensor_1 = int8(&[1.0, 7.0, 2.0, 3.0], vec![1, 2, 2]);
    let tensor_2 = int8(&[4.0, 7.0, 2.0, 3.0, 2.0, 5.0, 6.0, 3.0], vec![2, 2, 2]);

    let (shape, tensor_3) = qmatmul(&tensor_1, &tensor_2);
    let expected = [18.0, 28.0, 14.0, 23.0, 44.0, 26.0, 22.0, 19.0];

    assert_eq!(shape, vec![2, 2, 2]);
    assert_approx_eq(&tensor_3, &expected);
}

#[test]
#[should_panic]
fn should_panic_when_inner_dimensions_are_not_equal() {
    let tensor_1 = int8(&[3., 3., 4., 4., 5., 5., 6., 6.], vec![4, 2]);
    let tensor_2 = int8(&[1., 2., 3., 4., 1., 2., 3., 4., 1., 2., 3., 4.], vec![3, 4]);

    let _ = qmatmul(&tensor_1, &tensor_2);
}

#[test]
fn test_matmul_lhs_float_rhs_quantized() {
    // The float lhs is quantized again before the product, as a linear layer
    // with quantized weights does.
    let tensor_1: Vec<f32> = vec![1.0, 6.35, 2.0, 3.0, 1.0, 3.0];
    let tensor_2 = int8(&[4.0, 8.0, 12.7, 2.0, 3.0, 6.0], vec![2, 3]);
    let (_, output) = qmatmul(&int8(&tensor_1, vec![3, 2]), &tensor_2);

    let expected = [16.7, 27.05, 50.8, 14., 25., 43.4, 10., 17., 30.7];
    assert_approx_eq(&output, &expected);

    // The product comes back dequantized, as floats.
    assert!(output.iter().all(|v| v.is_finite()));
}

#[test]
fn matmul_exact_accumulation() {
    let lhs = QuantizedTensor { shape: vec![2, 3], values: vec![1, -2, 3, 4, 5, -6] };
    let rhs = QuantizedTensor { shape: vec![3, 1], values: vec![7, 8, 9] };
    let out = matmul(&lhs, &rhs).unwrap();
    assert_eq!(out.shape, vec![2, 1]);
    assert_eq!(out.values, vec![7 - 16 + 27, 28 + 40 - 54]);
}

#[test]
fn matmul_extreme_values() {
    let lhs = QuantizedTensor { shape: vec![1, 2], values: vec![-128, -128] };
    let rhs = QuantizedTensor { shape: vec![2, 1], values: vec![-128, 127] };
    let out = matmul(&lhs, &rhs).unwrap();
    assert_eq!(out.values, vec![16384 - 16256]);
}

#[test]
fn matmul_errors() {
    let a = QuantizedTensor { shape: vec![2, 2], values: vec![1, 2, 3, 4] };
    let b = QuantizedTensor { shape: vec![1, 2, 2], values: vec![1, 2, 3, 4] };
    let v = QuantizedTensor { shape: vec![4], values: vec![1, 2, 3, 4] };
    let c = QuantizedTensor { shape: vec![3, 1], values: vec![1, 2, 3] };
    let d2 = QuantizedTensor { shape: vec![2, 2, 2], values: vec![0; 8] };
    let d3 = QuantizedTensor { shape: vec![3, 2, 2], values: vec![0; 12] };
    assert_eq!(matmul(&a, &b).unwrap_err(), MatmulError::RankMismatch);
    assert_eq!(matmul(&v, &v).unwrap_err(), MatmulError::RankTooSmall);
    assert_eq!(matmul(&a, &c).unwrap_err(), MatmulError::InnerDimensionMismatch);
    assert_eq!(matmul(&d2, &d3).unwrap_err(), MatmulError::BatchMismatch);
}

#[test]
fn matmul_empty_dimensions() {
    let lhs = QuantizedTensor { shape: vec![2, 0], values: vec![] };
    let rhs = QuantizedTensor { shape: vec![0, 3], values: vec![] };
    let out = matmul(&lhs, &rhs).unwrap();
    assert_eq!(out.shape, vec![2, 3]);
    assert_eq!(out.values, vec![0; 6]);
}
