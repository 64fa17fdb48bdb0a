# godot_onnx

Verified core of a Godot extension that runs ONNX models with ONNX Runtime.

- `src/` (Verus): tensors and their little-endian byte layout (`tensor`, `codec`),
  imported model bytes (`model_data`), the module state and the checks and
  conversions around an inference call (`module`), input arrays built with
  `ndarray` (`array`), and a cell giving exclusive access to a value (`sync_cell`).
  Float elements are kept as their 32-bit patterns.
- `app/`: the Godot classes (`OnnxTensor`, `OnnxModule`, `OnnxModelData`), file
  reading, and the ONNX Runtime session, which call into `src/`.
- `tests/`: tests of the library.
