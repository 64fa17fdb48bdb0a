//! The model module: which model is loaded, and the checks and conversions
//! around one inference call.

use vstd::prelude::*;

use crate::array::{
    array_elements, array_from_shape_vec, array_shape, extent_product, nonzero_extent_product,
    shape_accepts, InputArray,
};
use crate::tensor::{shape_product, OnnxTensor};

verus! {

/// Execution providers of the inference runtime.
#[derive(PartialEq, Eq, Structural, Clone, Copy, Debug)]
pub enum ExecutionProvider {
    CoreMl,
    WebGpu,
    Cpu,
}

/// Operating systems that the extension is built for.
#[derive(PartialEq, Eq, Structural, Clone, Copy, Debug)]
pub enum TargetOs {
    MacOs,
    Android,
    Linux,
    Windows,
    Other,
}

/// The execution providers that a session is built with on `os`, in order of preference.
pub open spec fn providers_for(os: TargetOs) -> Seq<ExecutionProvider> {
    match os {
        TargetOs::MacOs => seq![ExecutionProvider::CoreMl, ExecutionProvider::Cpu],
        TargetOs::Android => seq![ExecutionProvider::Cpu],
        TargetOs::Linux | TargetOs::Windows => seq![ExecutionProvider::WebGpu, ExecutionProvider::Cpu],
        TargetOs::Other => seq![ExecutionProvider::Cpu],
    }
}

/// The execution providers for a session on `os`: CoreML on macOS, WebGPU on Linux and
/// Windows, each followed by the CPU; the CPU alone elsewhere.
pub fn session_execution_providers(os: TargetOs) -> (eps: Vec<ExecutionProvider>)
    ensures
        eps@ == providers_for(os),
{
    let mut eps: Vec<ExecutionProvider> = Vec::new();
    match os {
        TargetOs::MacOs => {
            eps.push(ExecutionProvider::CoreMl);
            eps.push(ExecutionProvider::Cpu);
        },
        TargetOs::Linux | TargetOs::Windows => {
            eps.push(ExecutionProvider::WebGpu);
            eps.push(ExecutionProvider::Cpu);
        },
        TargetOs::Android | TargetOs::Other => {
            eps.push(ExecutionProvider::Cpu);
        },
    }
    assert(eps@ =~= providers_for(os));
    eps
}

/// Why loading a model failed.
#[derive(PartialEq, Eq, Structural, Clone, Copy, Debug)]
pub enum LoadError {
    /// The model file is empty or missing.
    EmptyFile,
    /// The model bytes could not be staged for the runtime.
    TempFileUnavailable,
    /// The runtime refused the model.
    SessionFailed,
}

/// What building a session from model bytes came to.
pub enum SessionOutcome<S> {
    Ready(S),
    TempFileUnavailable,
    SessionFailed,
}

/// The bytes to load a model from: those of the imported resource when it has
/// any, else `None` (the file is then read directly).
pub fn imported_model_bytes(resource_data: Option<Vec<u8>>) -> (bytes: Option<Vec<u8>>)
    ensures
        bytes == (match resource_data {
            Some(d) => if d@.len() > 0 { Some(d) } else { None },
            None => None,
        }),
{
    match resource_data {
        Some(d) => if d.len() > 0 {
            Some(d)
        } else {
            None
        },
        None => None,
    }
}

/// A model module: the path of the loaded model and its inference session, if any.
pub struct OnnxModule<S> {
    path: String,
    session: Option<S>,
}

impl<S> OnnxModule<S> {
    /// The path of the loaded model (empty when none is loaded).
    pub closed spec fn loaded_path(&self) -> Seq<char> {
        self.path@
    }

    /// The inference session, if a model is loaded.
    pub closed spec fn current_session(&self) -> Option<S> {
        self.session
    }

    /// A module with no model loaded.
    pub fn new() -> (m: Self)
        ensures
            m.loaded_path() == Seq::<char>::empty(),
            m.current_session() is None,
    {
        OnnxModule { path: String::new(), session: None }
    }

    /// Unloads the current model and releases its session.
    pub fn unload(&mut self)
        ensures
            final(self).loaded_path() == Seq::<char>::empty(),
            final(self).current_session() is None,
    {
        self.session = None;
        self.path = String::new();
    }

    /// True when a model is loaded.
    pub fn is_loaded(&self) -> (r: bool)
        ensures
            r == (self.current_session() is Some),
    {
        self.session.is_some()
    }

    /// The session of the loaded model, for running it.
    pub fn session_mut(&mut self) -> (s: Option<&mut S>)
        ensures
            s is Some <==> old(self).current_session() is Some,
            s matches Some(r) ==> *r == old(self).current_session().unwrap(),
            final(self).loaded_path() == old(self).loaded_path(),
            s matches Some(r) ==> final(self).current_session() == Some(*final(r)),
            s is None ==> final(self).current_session() is None,
    {
        self.session.as_mut()
    }

    /// Loads a model from its bytes, first step: unloads the current model, then
    /// refuses empty bytes. On `Ok`, the caller builds a session from the bytes and
    /// hands the outcome to `finish_load`.
    pub fn load(&mut self, bytes: &Vec<u8>) -> (r: Result<(), LoadError>)
        ensures
            final(self).loaded_path() == Seq::<char>::empty(),
            final(self).current_session() is None,
            r == (if bytes@.len() == 0 { Err(LoadError::EmptyFile) } else { Ok(()) }),
    {
        self.unload();
        if bytes.len() == 0 {
            return Err(LoadError::EmptyFile);
        }
        Ok(())
    }

    /// Last step of loading: keeps the session and the path when the session was
    /// built, and reports why otherwise, leaving the module as it was.
    pub fn finish_load(&mut self, path: String, outcome: SessionOutcome<S>) -> (r: Result<(), LoadError>)
        ensures
            match outcome {
                SessionOutcome::Ready(s) => {
                    &&& r == Ok::<(), LoadError>(())
                    &&& final(self).current_session() == Some(s)
                    &&& final(self).loaded_path() == path@
                },
                SessionOutcome::TempFileUnavailable => {
                    &&& r == Err::<(), LoadError>(LoadError::TempFileUnavailable)
                    &&& final(self).current_session() == old(self).current_session()
                    &&& final(self).loaded_path() == old(self).loaded_path()
                },
                SessionOutcome::SessionFailed => {
                    &&& r == Err::<(), LoadError>(LoadError::SessionFailed)
                    &&& final(self).current_session() == old(self).current_session()
                    &&& final(self).loaded_path() == old(self).loaded_path()
                },
            },
    {
        match outcome {
            SessionOutcome::Ready(s) => {
                self.path = path;
                self.session = Some(s);
                Ok(())
            },
            SessionOutcome::TempFileUnavailable => Err(LoadError::TempFileUnavailable),
            SessionOutcome::SessionFailed => Err(LoadError::SessionFailed),
        }
    }

    /// Checks the arguments of an inference call and builds the input arrays, in
    /// model order. `input_count` is the number of inputs of the loaded model (it is
    /// not read when no model is loaded). Arguments are checked in order and the first
    /// refused one gives the error.
    pub fn call_module(&self, input_count: usize, args: &Vec<CallArg>) -> (r: Result<
        Vec<InputArray>,
        CallError,
    >)
        ensures
            self.current_session() is None ==> r == Err::<Vec<InputArray>, CallError>(
                CallError::NotLoaded,
            ),
            self.current_session() is Some && input_count != args.len() ==> r == Err::<
                Vec<InputArray>,
                CallError,
            >(CallError::InputCountMismatch { expected: input_count, got: args.len() }),
            self.current_session() is Some && input_count == args.len() ==> (r is Ok <==> forall|i: int|
                0 <= i < args.len() ==> arg_accepted(#[trigger] args@[i])),
            r matches Ok(arrays) ==> arrays_match_args(arrays@, args@),
            self.current_session() is Some && input_count == args.len() ==> (r matches Err(e)
                ==> exists|i: int|
                0 <= i < args.len() && !arg_accepted(#[trigger] args@[i]) && (forall|j: int|
                    0 <= j < i ==> arg_accepted(args@[j])) && e == arg_error(args@[i], i as usize)),
    {
        let count = if self.session.is_some() {
            Some(input_count)
        } else {
            None
        };
        prepare_inputs(count, args)
    }
}


/// Load law: after `load(bytes)` and then `finish_load(path, outcome)`, a model is
/// loaded exactly when the bytes were not empty and the session was built, and then
/// its path is `path`; whatever was loaded before is gone either way.
pub proof fn law_load_result<S>(
    after_load: OnnxModule<S>,
    after_finish: OnnxModule<S>,
    bytes: Seq<u8>,
    path: Seq<char>,
    outcome: SessionOutcome<S>,
    load_result: Result<(), LoadError>,
)
    requires
        after_load.loaded_path() == Seq::<char>::empty(),
        after_load.current_session() is None,
        load_result == (if bytes.len() == 0 { Err(LoadError::EmptyFile) } else { Ok(()) }),
        load_result is Ok ==> match outcome {
            SessionOutcome::Ready(s) => {
                &&& after_finish.current_session() == Some(s)
                &&& after_finish.loaded_path() == path
            },
            _ => {
                &&& after_finish.current_session() == after_load.current_session()
                &&& after_finish.loaded_path() == after_load.loaded_path()
            },
        },
        load_result is Err ==> after_finish == after_load,
    ensures
        (after_finish.current_session() is Some) <==> (bytes.len() > 0 && outcome is Ready),
        after_finish.current_session() is Some ==> after_finish.loaded_path() == path,
        after_finish.current_session() is None ==> after_finish.loaded_path() == Seq::<char>::empty(),
{
}

/// An argument of an inference call: a tensor, or a value of another kind.
pub enum CallArg {
    Tensor(OnnxTensor),
    Other,
}

/// Why an inference call was refused.
#[derive(PartialEq, Eq, Structural, Clone, Copy, Debug)]
pub enum CallError {
    /// No model is loaded.
    NotLoaded,
    /// The number of arguments differs from the number of model inputs.
    InputCountMismatch { expected: usize, got: usize },
    /// The argument at `index` is not a tensor.
    NotATensor { index: usize },
    /// The shape of the tensor at `index` does not fit its elements.
    ShapeMismatch { index: usize },
}

/// The shape handed to the runtime for tensor dimensions: each converted to `usize`
/// as Rust's `as` does.
pub open spec fn input_shape(dims: Seq<i64>) -> Seq<usize> {
    dims.map_values(|d: i64| d as usize)
}

/// The shape of a runtime output as tensor dimensions: each converted to `i64`
/// as Rust's `as` does.
pub open spec fn output_dims(shape: Seq<usize>) -> Seq<i64> {
    shape.map_values(|s: usize| s as i64)
}

/// Shape law of the inputs: the shape handed to the runtime is the tensor's
/// dimensions entry by entry, in order, each converted with `as usize`.
pub proof fn law_input_shape(dims: Seq<i64>)
    ensures
        input_shape(dims).len() == dims.len(),
        forall|k: int| 0 <= k < dims.len() ==> #[trigger] input_shape(dims)[k] == dims[k] as usize,
{
}

/// Shape law of the outputs: a result tensor's dimensions are the output's shape
/// entry by entry, in order, each converted with `as i64`.
pub proof fn law_output_dims(shape: Seq<usize>)
    ensures
        output_dims(shape).len() == shape.len(),
        forall|k: int| 0 <= k < shape.len() ==> #[trigger] output_dims(shape)[k] == shape[k] as i64,
{
}

/// Collection law: no outputs give no tensors; one more readable output adds its
/// tensor at the end; one more unreadable output adds nothing.
pub proof fn law_kept_outputs(outputs: Seq<Option<(Vec<usize>, Vec<u32>)>>, shape: Vec<usize>, data: Vec<u32>)
    ensures
        kept_outputs(Seq::empty()) == Seq::<(Seq<i64>, Seq<u32>)>::empty(),
        kept_outputs(outputs.push(None)) == kept_outputs(outputs),
        kept_outputs(outputs.push(Some((shape, data)))) == kept_outputs(outputs).push(
            (output_dims(shape@), data@),
        ),
{
    assert(outputs.push(None).drop_last() =~= outputs);
    assert(outputs.push(Some((shape, data))).drop_last() =~= outputs);
}

/// Whether an argument becomes an input array: it is a tensor whose shape fits its elements.
pub open spec fn arg_accepted(arg: CallArg) -> bool {
    match arg {
        CallArg::Tensor(t) => shape_accepts(input_shape(t.dims()), t.data_bits().len()),
        CallArg::Other => false,
    }
}

/// The error for an argument that is not accepted, found at `index`.
pub open spec fn arg_error(arg: CallArg, index: usize) -> CallError {
    match arg {
        CallArg::Tensor(_) => CallError::ShapeMismatch { index },
        CallArg::Other => CallError::NotATensor { index },
    }
}

/// For positive dimensions, both products of the input shape are the tensor's element count.
proof fn lemma_input_shape_products(d: Seq<i64>)
    requires
        forall|k: int| 0 <= k < d.len() ==> 0 < #[trigger] d[k] <= usize::MAX,
    ensures
        extent_product(input_shape(d)) == shape_product(d),
        nonzero_extent_product(input_shape(d)) == shape_product(d),
    decreases d.len(),
{
    if d.len() > 0 {
        let init = d.drop_last();
        assert(input_shape(d).drop_last() =~= input_shape(init));
        assert(input_shape(d).last() == d.last() as usize);
        lemma_input_shape_products(init);
    }
}

/// Acceptance law: a tensor with positive dimensions whose element count is the
/// product of its dimensions (and fits `isize`) is accepted as a call argument.
pub proof fn law_consistent_tensor_accepted(t: OnnxTensor)
    requires
        forall|k: int| 0 <= k < t.dims().len() ==> 0 < #[trigger] t.dims()[k] <= usize::MAX,
        t.data_bits().len() == shape_product(t.dims()),
        t.data_bits().len() <= isize::MAX,
    ensures
        arg_accepted(CallArg::Tensor(t)),
{
    lemma_input_shape_products(t.dims());
}

/// Refusal law: an argument that is not a tensor is never accepted, and its error
/// names it and its position; a refused tensor's error is a shape mismatch at its position.
pub proof fn law_arg_errors(t: OnnxTensor, index: usize)
    ensures
        !arg_accepted(CallArg::Other),
        arg_error(CallArg::Other, index) == (CallError::NotATensor { index }),
        arg_error(CallArg::Tensor(t), index) == (CallError::ShapeMismatch { index }),
{
}

/// `arrays` holds, in order, the input arrays for the tensors `args`.
pub open spec fn arrays_match_args(arrays: Seq<InputArray>, args: Seq<CallArg>) -> bool {
    &&& arrays.len() == args.len()
    &&& forall|i: int|
        0 <= i < args.len() ==> match #[trigger] args[i] {
            CallArg::Tensor(t) => {
                &&& array_shape(arrays[i]) == input_shape(t.dims())
                &&& array_elements(arrays[i]) == t.data_bits()
            },
            CallArg::Other => false,
        }
}

/// Converts tensor dimensions to the shape handed to the runtime.
fn shape_to_usize(dims: &Vec<i64>) -> (shape: Vec<usize>)
    ensures
        shape@ == input_shape(dims@),
{
    let mut shape: Vec<usize> = Vec::new();
    let mut i: usize = 0;
    while i < dims.len()
        invariant
            i <= dims.len(),
            shape@ == input_shape(dims@).take(i as int),
        decreases dims.len() - i,
    {
        shape.push(dims[i] as usize);
        assert(shape@ =~= input_shape(dims@).take(i + 1));
        i = i + 1;
    }
    assert(shape@ =~= input_shape(dims@));
    shape
}

/// Converts a runtime output shape to tensor dimensions.
fn shape_to_i64(shape: &Vec<usize>) -> (dims: Vec<i64>)
    ensures
        dims@ == output_dims(shape@),
{
    let mut dims: Vec<i64> = Vec::new();
    let mut i: usize = 0;
    while i < shape.len()
        invariant
            i <= shape.len(),
            dims@ == output_dims(shape@).take(i as int),
        decreases shape.len() - i,
    {
        dims.push(shape[i] as i64);
        assert(dims@ =~= output_dims(shape@).take(i + 1));
        i = i + 1;
    }
    assert(dims@ =~= output_dims(shape@));
    dims
}

/// Checks the arguments of an inference call and builds the input arrays.
/// `input_count` is the number of model inputs, or `None` when no model is loaded.
/// Arguments are checked in order and the first refused one gives the error.
fn prepare_inputs(input_count: Option<usize>, args: &Vec<CallArg>) -> (r: Result<
    Vec<InputArray>,
    CallError,
>)
    ensures
        input_count is None ==> r == Err::<Vec<InputArray>, CallError>(CallError::NotLoaded),
        input_count matches Some(c) ==> (c != args.len() ==> r == Err::<Vec<InputArray>, CallError>(
            CallError::InputCountMismatch { expected: c, got: args.len() },
        )),
        input_count == Some(args.len()) ==> (r is Ok <==> forall|i: int|
            0 <= i < args.len() ==> arg_accepted(#[trigger] args@[i])),
        r matches Ok(arrays) ==> arrays_match_args(arrays@, args@),
        input_count == Some(args.len()) ==> (r matches Err(e) ==> exists|i: int|
            0 <= i < args.len() && !arg_accepted(#[trigger] args@[i]) && (forall|j: int|
                0 <= j < i ==> arg_accepted(args@[j])) && e == arg_error(args@[i], i as usize)),
{
    let count = match input_count {
        None => {
            return Err(CallError::NotLoaded);
        },
        Some(c) => c,
    };
    if args.len() != count {
        return Err(CallError::InputCountMismatch { expected: count, got: args.len() });
    }
    let mut arrays: Vec<InputArray> = Vec::new();
    let mut i: usize = 0;
    while i < args.len()
        invariant
            input_count == Some(args.len()),
            i <= args.len(),
            arrays@.len() == i,
            forall|j: int| 0 <= j < i ==> arg_accepted(#[trigger] args@[j]),
            forall|j: int|
                0 <= j < i ==> match #[trigger] args@[j] {
                    CallArg::Tensor(t) => {
                        &&& array_shape(arrays@[j]) == input_shape(t.dims())
                        &&& array_elements(arrays@[j]) == t.data_bits()
                    },
                    CallArg::Other => false,
                },
        decreases args.len() - i,
    {
        match &args[i] {
            CallArg::Tensor(t) => {
                let dims = t.shape_slice();
                let shape = shape_to_usize(&dims);
                let data = t.data_slice();
                match array_from_shape_vec(shape, data) {
                    Ok(a) => {
                        arrays.push(a);
                    },
                    Err(_) => {
                        return Err(CallError::ShapeMismatch { index: i });
                    },
                }
            },
            CallArg::Other => {
                return Err(CallError::NotATensor { index: i });
            },
        }
        i = i + 1;
    }
    Ok(arrays)
}

/// The tensors made from the runtime outputs that were read: each kept output
/// as (dimensions, elements), in order; outputs that could not be read are skipped.
pub open spec fn kept_outputs(outputs: Seq<Option<(Vec<usize>, Vec<u32>)>>) -> Seq<(Seq<i64>, Seq<u32>)>
    decreases outputs.len(),
{
    if outputs.len() == 0 {
        Seq::empty()
    } else {
        let rest = kept_outputs(outputs.drop_last());
        match outputs.last() {
            Some(out) => rest.push((output_dims(out.0@), out.1@)),
            None => rest,
        }
    }
}

/// Makes result tensors from the runtime outputs, in order. An output is given as
/// its shape and elements, or as `None` where it is missing or does not hold floats;
/// those are skipped.
pub fn collect_outputs(outputs: &Vec<Option<(Vec<usize>, Vec<u32>)>>) -> (tensors: Vec<OnnxTensor>)
    ensures
        tensors@.len() == kept_outputs(outputs@).len(),
        forall|i: int|
            0 <= i < tensors@.len() ==> (#[trigger] tensors@[i]).dims() == kept_outputs(outputs@)[i].0
                && tensors@[i].data_bits() == kept_outputs(outputs@)[i].1,
{
    let mut tensors: Vec<OnnxTensor> = Vec::new();
    let mut i: usize = 0;
    while i < outputs.len()
        invariant
            i <= outputs.len(),
            tensors@.len() == kept_outputs(outputs@.take(i as int)).len(),
            forall|k: int|
                0 <= k < tensors@.len() ==> (#[trigger] tensors@[k]).dims() == kept_outputs(
                    outputs@.take(i as int),
                )[k].0 && tensors@[k].data_bits() == kept_outputs(outputs@.take(i as int))[k].1,
        decreases outputs.len() - i,
    {
        assert(outputs@.take(i + 1).drop_last() =~= outputs@.take(i as int));
        match &outputs[i] {
            Some(out) => {
                let dims = shape_to_i64(&out.0);
                let data = out.1.clone();
                tensors.push(OnnxTensor::from_shape_and_data(dims, data));
            },
            None => {},
        }
        i = i + 1;
    }
    assert(outputs@.take(outputs@.len() as int) =~= outputs@);
    tensors
}

} // verus!
