use godot_onnx::tensor::{element_count, OnnxTensor};

fn le_bytes(values: &[f32]) -> Vec<u8> {
    let mut out = Vec::new();
    for v in values {
        out.extend_from_slice(&v.to_le_bytes());
    }
    out
}

fn bits(values: &[f32]) -> Vec<u32> {
    values.iter().map(|v| v.to_bits()).collect()
}

fn floats(bits: &[u32]) -> Vec<f32> {
    bits.iter().map(|b| f32::from_bits(*b)).collect()
}

#[test]
fn element_count_multiplies_dimensions() {
    assert_eq!(element_count(&vec![2, 3, 4]), 24);
    assert_eq!(element_count(&vec![]), 1);
    assert_eq!(element_count(&vec![5, 0, 7]), 0);
    assert_eq!(element_count(&vec![-1, 3]), -3);
}

#[test]
fn from_bytes_reads_little_endian_floats() {
    let t = OnnxTensor::from_bytes(le_bytes(&[1.0, 2.0, 3.0]), vec![3]);
    assert_eq!(floats(&t.data_slice()), vec![1.0, 2.0, 3.0]);
    assert_eq!(t.get_dimension(), vec![3]);
    assert!(t.is_captured());
}

#[test]
fn from_bytes_exact_bit_pattern() {
    let t = OnnxTensor::from_bytes(vec![0x00, 0x00, 0x80, 0x3f, 0x78, 0x56, 0x34, 0x12], vec![2]);
    assert_eq!(t.data_slice(), vec![0x3f80_0000, 0x1234_5678]);
}

#[test]
fn from_bytes_wrong_length_gives_empty_tensor() {
    let t = OnnxTensor::from_bytes(le_bytes(&[1.0, 2.0]), vec![3]);
    assert!(t.data_slice().is_empty());
    assert!(t.get_dimension().is_empty());
    assert!(!t.is_captured());
    let t = OnnxTensor::from_bytes(vec![1, 2, 3], vec![1]);
    assert!(!t.is_captured());
}

#[test]
fn from_bytes_negative_dimension_gives_empty_tensor() {
    let t = OnnxTensor::from_bytes(le_bytes(&[1.0]), vec![-1]);
    assert!(!t.is_captured());
    assert!(t.get_dimension().is_empty());
}

#[test]
fn from_bytes_scalar_shape_takes_one_element() {
    let t = OnnxTensor::from_bytes(le_bytes(&[7.5]), vec![]);
    assert_eq!(floats(&t.data_slice()), vec![7.5]);
    assert!(t.get_dimension().is_empty());
}

#[test]
fn from_bytes_zero_sized_shape_keeps_shape() {
    let t = OnnxTensor::from_bytes(vec![], vec![2, 0]);
    assert!(!t.is_captured());
    assert_eq!(t.get_dimension(), vec![2, 0]);
}

#[test]
fn from_float32s_keeps_data_and_shape() {
    let t = OnnxTensor::from_float32s(bits(&[1.0, 2.0, 3.0, 4.0, 5.0, 6.0]), vec![2, 3]);
    assert_eq!(floats(&t.data_slice()), vec![1.0, 2.0, 3.0, 4.0, 5.0, 6.0]);
    assert_eq!(t.shape_slice(), vec![2, 3]);
}

#[test]
fn from_float32s_wrong_length_gives_empty_tensor() {
    let t = OnnxTensor::from_float32s(bits(&[1.0, 2.0, 3.0]), vec![2, 2]);
    assert!(!t.is_captured());
    assert!(t.shape_slice().is_empty());
}

#[test]
fn get_data_writes_little_endian_bytes() {
    let t = OnnxTensor::from_float32s(vec![0x3f80_0000, 0x1234_5678], vec![2]);
    assert_eq!(t.get_data(), vec![0x00, 0x00, 0x80, 0x3f, 0x78, 0x56, 0x34, 0x12]);
}

#[test]
fn get_data_of_empty_tensor_is_empty() {
    assert!(OnnxTensor::new().get_data().is_empty());
}

#[test]
fn bytes_round_trip_through_tensor() {
    let bytes = le_bytes(&[1.5, -2.25, f32::INFINITY, 0.0, -0.0, 1e-30]);
    let t = OnnxTensor::from_bytes(bytes.clone(), vec![2, 3]);
    assert_eq!(t.get_data(), bytes);
}

#[test]
fn nan_bit_patterns_round_trip() {
    let data = vec![0x7fc0_0001, 0xffff_ffff];
    let t = OnnxTensor::from_float32s(data.clone(), vec![2]);
    let back = OnnxTensor::from_bytes(t.get_data(), t.get_dimension());
    assert_eq!(back.data_slice(), data);
    assert_eq!(back.get_dimension(), vec![2]);
}

#[test]
fn tensor_rebuilt_from_its_bytes() {
    let t = OnnxTensor::from_float32s(bits(&[22.0, 28.0, 49.0, 64.0]), vec![2, 2]);
    let back = OnnxTensor::from_bytes(t.get_data(), t.get_dimension());
    assert_eq!(back.data_slice(), t.data_slice());
    assert_eq!(back.get_dimension(), t.get_dimension());
}

#[test]
fn from_shape_and_data_keeps_both() {
    let t = OnnxTensor::from_shape_and_data(vec![1, 3], vec![1, 2, 3]);
    assert_eq!(t.shape_slice(), vec![1, 3]);
    assert_eq!(t.data_slice(), vec![1, 2, 3]);
}

#[test]
fn new_tensor_is_empty() {
    let t = OnnxTensor::new();
    assert!(!t.is_captured());
    assert!(t.get_dimension().is_empty());
}
