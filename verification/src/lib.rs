//! Tensor, model and module logic of the ONNX extension for Godot.

pub mod array;
pub mod codec;
pub mod model_data;
pub mod module;
pub mod sync_cell;
pub mod tensor;

use vstd::prelude::*;

verus! {

/// Entry point type of the extension library.
pub struct OnnxExtension;

} // verus!
