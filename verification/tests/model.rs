use godot_onnx::array::InputArray;
use godot_onnx::model_data::OnnxModelData;
use godot_onnx::module::{
    collect_outputs, imported_model_bytes, session_execution_providers, CallArg,
    CallError, ExecutionProvider, LoadError, OnnxModule, SessionOutcome, TargetOs,
};
use godot_onnx::sync_cell::{with_mut, SyncCell};
use godot_onnx::tensor::OnnxTensor;
use godot_onnx::OnnxExtension;

fn tensor(values: &[f32], dims: Vec<i64>) -> OnnxTensor {
    OnnxTensor::from_float32s(values.iter().map(|v| v.to_bits()).collect(), dims)
}

#[test]
fn providers_per_platform() {
    assert_eq!(
        session_execution_providers(TargetOs::MacOs),
        vec![ExecutionProvider::CoreMl, ExecutionProvider::Cpu]
    );
    assert_eq!(
        session_execution_providers(TargetOs::Linux),
        vec![ExecutionProvider::WebGpu, ExecutionProvider::Cpu]
    );
    assert_eq!(
        session_execution_providers(TargetOs::Windows),
        vec![ExecutionProvider::WebGpu, ExecutionProvider::Cpu]
    );
    assert_eq!(session_execution_providers(TargetOs::Android), vec![ExecutionProvider::Cpu]);
    assert_eq!(session_execution_providers(TargetOs::Other), vec![ExecutionProvider::Cpu]);
}

#[test]
fn imported_bytes_used_only_when_not_empty() {
    assert_eq!(imported_model_bytes(Some(vec![1, 2])), Some(vec![1, 2]));
    assert_eq!(imported_model_bytes(Some(vec![])), None);
    assert_eq!(imported_model_bytes(None), None);
}

#[test]
fn new_module_is_not_loaded() {
    let m: OnnxModule<u32> = OnnxModule::new();
    assert!(!m.is_loaded());
}

#[test]
fn load_of_empty_file_fails_and_unloads() {
    let mut m: OnnxModule<u32> = OnnxModule::new();
    assert_eq!(m.load(&vec![1]), Ok(()));
    assert_eq!(m.finish_load("res://a.onnx".to_string(), SessionOutcome::Ready(7)), Ok(()));
    assert!(m.is_loaded());
    assert_eq!(m.load(&vec![]), Err(LoadError::EmptyFile));
    assert!(!m.is_loaded());
}

#[test]
fn load_success_keeps_session() {
    let mut m: OnnxModule<u32> = OnnxModule::new();
    assert_eq!(m.load(&vec![8, 1]), Ok(()));
    assert_eq!(m.finish_load("res://identity.onnx".to_string(), SessionOutcome::Ready(42)), Ok(()));
    assert!(m.is_loaded());
    assert_eq!(m.session_mut().map(|s| *s), Some(42));
}

#[test]
fn load_failures_leave_module_unloaded() {
    let mut m: OnnxModule<u32> = OnnxModule::new();
    assert_eq!(m.load(&vec![8]), Ok(()));
    assert_eq!(
        m.finish_load("x".to_string(), SessionOutcome::SessionFailed),
        Err(LoadError::SessionFailed)
    );
    assert!(!m.is_loaded());
    assert_eq!(m.load(&vec![8]), Ok(()));
    assert_eq!(
        m.finish_load("x".to_string(), SessionOutcome::TempFileUnavailable),
        Err(LoadError::TempFileUnavailable)
    );
    assert!(!m.is_loaded());
    assert!(m.session_mut().is_none());
}

#[test]
fn unload_releases_session() {
    let mut m: OnnxModule<u32> = OnnxModule::new();
    let _ = m.load(&vec![1]);
    let _ = m.finish_load("p".to_string(), SessionOutcome::Ready(1));
    m.unload();
    assert!(!m.is_loaded());
}

fn shapes(arrays: &[InputArray]) -> Vec<Vec<usize>> {
    arrays.iter().map(|a| a.array.shape().to_vec()).collect()
}

fn loaded() -> OnnxModule<u32> {
    let mut m: OnnxModule<u32> = OnnxModule::new();
    let _ = m.load(&vec![1]);
    let _ = m.finish_load("res://models/matmul.onnx".to_string(), SessionOutcome::Ready(1));
    m
}

#[test]
fn call_module_builds_input_arrays() {
    let args = vec![
        CallArg::Tensor(tensor(&[1.0, 2.0, 3.0, 4.0, 5.0, 6.0], vec![2, 3])),
        CallArg::Tensor(tensor(&[1.0, 2.0, 3.0, 4.0, 5.0, 6.0], vec![3, 2])),
    ];
    let arrays = loaded().call_module(2, &args).unwrap();
    assert_eq!(shapes(&arrays), vec![vec![2, 3], vec![3, 2]]);
    let elems: Vec<u32> = arrays[1].array.iter().copied().collect();
    assert_eq!(elems, [1.0f32, 2.0, 3.0, 4.0, 5.0, 6.0].iter().map(|v| v.to_bits()).collect::<Vec<u32>>());
    assert_eq!(arrays[0].array[[1, 2]], 6.0f32.to_bits());
}

#[test]
fn call_module_not_loaded() {
    let args = vec![CallArg::Tensor(tensor(&[1.0], vec![1]))];
    let m: OnnxModule<u32> = OnnxModule::new();
    assert_eq!(m.call_module(1, &args).err(), Some(CallError::NotLoaded));
}

#[test]
fn call_module_count_mismatch() {
    let args = vec![CallArg::Tensor(tensor(&[1.0], vec![1]))];
    assert_eq!(
        loaded().call_module(2, &args).err(),
        Some(CallError::InputCountMismatch { expected: 2, got: 1 })
    );
}

#[test]
fn call_module_rejects_non_tensor() {
    let args = vec![CallArg::Tensor(tensor(&[1.0], vec![1])), CallArg::Other];
    assert_eq!(loaded().call_module(2, &args).err(), Some(CallError::NotATensor { index: 1 }));
}

#[test]
fn call_module_rejects_mismatched_shape() {
    // A tensor whose stored shape does not fit its elements (as a runtime output could be).
    let bad = OnnxTensor::from_shape_and_data(vec![2, 2], vec![1, 2, 3]);
    let args = vec![CallArg::Tensor(bad), CallArg::Other];
    assert_eq!(loaded().call_module(2, &args).err(), Some(CallError::ShapeMismatch { index: 0 }));
}

#[test]
fn call_module_rejects_negative_extent() {
    let bad = OnnxTensor::from_shape_and_data(vec![-1], vec![1]);
    let args = vec![CallArg::Tensor(bad)];
    assert_eq!(loaded().call_module(1, &args).err(), Some(CallError::ShapeMismatch { index: 0 }));
}

#[test]
fn call_module_empty_tensor_is_scalar_shape_mismatch() {
    let args = vec![CallArg::Tensor(OnnxTensor::new())];
    assert_eq!(loaded().call_module(1, &args).err(), Some(CallError::ShapeMismatch { index: 0 }));
}

#[test]
fn collect_outputs_skips_unread_outputs() {
    let outputs = vec![
        Some((vec![2usize, 2], vec![1u32, 2, 3, 4])),
        None,
        Some((vec![3usize], vec![5u32, 6, 7])),
    ];
    let tensors = collect_outputs(&outputs);
    assert_eq!(tensors.len(), 2);
    assert_eq!(tensors[0].get_dimension(), vec![2, 2]);
    assert_eq!(tensors[0].data_slice(), vec![1, 2, 3, 4]);
    assert_eq!(tensors[1].get_dimension(), vec![3]);
    assert_eq!(tensors[1].data_slice(), vec![5, 6, 7]);
}

#[test]
fn collect_outputs_of_nothing_is_empty() {
    assert!(collect_outputs(&vec![None, None]).is_empty());
}

#[test]
fn model_data_read_back() {
    let mut d = OnnxModelData::new();
    assert!(d.get_data().is_empty());
    d.set_data(vec![8, 1, 2]);
    assert_eq!(d.get_data(), vec![8, 1, 2]);
}

#[test]
fn sync_cell_with_mut_changes_value() {
    let mut c = SyncCell::new(3u32);
    let r = with_mut(&mut c, |v: &mut u32| {
        *v += 4;
        *v * 2
    });
    assert_eq!(r, 14);
    let r2 = with_mut(&mut c, |v: &mut u32| *v);
    assert_eq!(r2, 7);
}

#[test]
fn sync_cell_default_holds_default() {
    let mut c: SyncCell<Vec<u8>> = SyncCell::default();
    assert!(with_mut(&mut c, |v: &mut Vec<u8>| v.is_empty()));
}

#[test]
fn extension_type_exists() {
    let _e = OnnxExtension;
}
