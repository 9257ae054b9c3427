use onnx_ir::attribute::{AttributeValue, Attributes};
use onnx_ir::conv1d::{Conv1dConfig, conv1d_config};
use onnx_ir::node::{Node, NodeKind, StaticValue, TensorRef};
use onnx_ir::padding::PaddingConfig1d;

fn f32_bytes(values: &[f32]) -> Vec<u8> {
    values.iter().flat_map(|v| v.to_le_bytes()).collect()
}

fn dynamic_tensor(name: &str) -> TensorRef {
    TensorRef { name: name.to_string(), shape: None, value: None }
}

fn constant_tensor(name: &str, data: Vec<f32>, shape: Vec<usize>) -> TensorRef {
    TensorRef {
        name: name.to_string(),
        shape: Some(shape.clone()),
        value: Some(StaticValue { shape, data: f32_bytes(&data) }),
    }
}

fn create_test_node(
    kernel_shape: Vec<i64>,
    strides: Vec<i64>,
    pads: Vec<i64>,
    dilations: Vec<i64>,
    group: i64,
    has_bias: bool,
) -> Node {
    // weight layout: [out_channels, in_channels, kernel_size]
    let mut inputs = vec![
        dynamic_tensor("data"),
        constant_tensor("weight", vec![0.1; 16], vec![2, 2, 4]),
    ];
    if has_bias {
        inputs.push(constant_tensor("bias", vec![0.1, 0.2], vec![2]));
    }
    let mut attrs = Attributes::new();
    attrs.insert("kernel_shape".to_string(), AttributeValue::Int64s(kernel_shape));
    attrs.insert("strides".to_string(), AttributeValue::Int64s(strides));
    attrs.insert("pads".to_string(), AttributeValue::Int64s(pads));
    attrs.insert("dilations".to_string(), AttributeValue::Int64s(dilations));
    attrs.insert("group".to_string(), AttributeValue::Int64(group));
    Node {
        kind: NodeKind::Conv1d,
        name: "test_conv1d".to_string(),
        inputs,
        outputs: vec![dynamic_tensor("output")],
        attrs,
    }
}

fn unwrap_config(node: &Node) -> Conv1dConfig {
    match conv1d_config(node) {
        Ok(config) => config,
        Err(e) => panic!("{}", e.message()),
    }
}

#[test]
fn test_conv1d_config_basic() {
    let node = create_test_node(vec![4], vec![1], vec![0, 0], vec![1], 1, false);
    let config = unwrap_config(&node);

    assert_eq!(config.channels_in, 2);
    assert_eq!(config.channels_out, 2);
    assert_eq!(config.kernel_size, 4);
    assert_eq!(config.stride, 1);
    assert_eq!(config.dilation, 1);
    assert_eq!(config.groups, 1);
    assert!(!config.bias);
    assert!(matches!(config.padding, PaddingConfig1d::Valid));
}

#[test]
fn test_conv1d_config_with_padding() {
    let node = create_test_node(vec![4], vec![2], vec![2, 2], vec![1], 1, true);
    let config = unwrap_config(&node);

    assert_eq!(config.channels_in, 2);
    assert_eq!(config.channels_out, 2);
    assert_eq!(config.kernel_size, 4);
    assert_eq!(config.stride, 2);
    assert_eq!(config.dilation, 1);
    assert_eq!(config.groups, 1);
    assert!(config.bias);
    assert!(matches!(config.padding, PaddingConfig1d::Explicit(2)));
}

#[test]
fn test_conv1d_config_with_dilation() {
    let node = create_test_node(vec![4], vec![1], vec![0, 0], vec![2], 1, false);
    let config = unwrap_config(&node);

    assert_eq!(config.channels_in, 2);
    assert_eq!(config.channels_out, 2);
    assert_eq!(config.kernel_size, 4);
    assert_eq!(config.stride, 1);
    assert_eq!(config.dilation, 2);
    assert_eq!(config.groups, 1);
    assert!(!config.bias);
    assert!(matches!(config.padding, PaddingConfig1d::Valid));
}

#[test]
fn test_conv1d_config_with_groups() {
    let node = create_test_node(vec![4], vec![1], vec![0, 0], vec![1], 2, false);
    let config = unwrap_config(&node);

    assert_eq!(config.channels_in, 4);
    assert_eq!(config.channels_out, 2);
    assert_eq!(config.kernel_size, 4);
    assert_eq!(config.stride, 1);
    assert_eq!(config.dilation, 1);
    assert_eq!(config.groups, 2);
    assert!(!config.bias);
    assert!(matches!(config.padding, PaddingConfig1d::Valid));
}

#[test]
#[should_panic(expected = "Asymmetric padding is not supported")]
fn test_conv1d_config_asymmetric_padding() {
    let node = create_test_node(vec![4], vec![1], vec![1, 2], vec![1], 1, false);
    let _ = unwrap_config(&node);
}

#[test]
#[should_panic(expected = "Negative pad values are not supported")]
fn test_conv1d_config_negative_padding() {
    let node = create_test_node(vec![4], vec![1], vec![-1, -1], vec![1], 1, false);
    let _ = unwrap_config(&node);
}
