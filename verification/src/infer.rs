//! Local inference on `.cvimodel` files: tensor shapes, model metadata,
//! model path validation, and the judgement of NPU runtime calls.
//!
//! The models must be pre-converted from ONNX with Sophgo's offline
//! toolchain; the runtime calls themselves are made by the caller.
use vstd::prelude::*;

use crate::camera::failure_message;
use crate::decimal::i32_to_decimal;
use crate::error::{Error, Result};
use crate::pipeline::CallOutcome;
use crate::text::{prefix_len, suffix_len, CharClass};

verus! {

/// The product of `dims`, multiplied from the left.
pub open spec fn product(dims: Seq<usize>) -> nat
    decreases dims.len(),
{
    if dims.len() == 0 {
        1
    } else {
        product(dims.drop_last()) * (dims.last() as nat)
    }
}

/// Every running product of `dims` fits in a `usize` (so multiplying them out
/// does not overflow).
pub open spec fn product_fits(dims: Seq<usize>) -> bool {
    forall|k: int| 0 <= k <= dims.len() ==> #[trigger] product(dims.take(k)) <= usize::MAX
}

/// Shape of a single tensor (input or output).
#[derive(Debug, Clone, PartialEq, Eq)]
pub struct TensorShape {
    /// Dimension sizes, e.g. `[1, 3, 640, 640]` for a batch-1 RGB image.
    pub dims: Vec<usize>,
}

impl TensorShape {
    /// Create a new [`TensorShape`] from the given dimensions.
    pub fn new(dims: Vec<usize>) -> (s: Self)
        ensures
            s.dims@ == dims@,
    {
        TensorShape { dims }
    }

    /// The shape whose dimensions are the runtime's signed dimension values,
    /// each converted to `usize` as `as` converts it.
    pub fn from_raw_dims(raw: &[i32]) -> (s: Self)
        ensures
            s.dims@.len() == raw@.len(),
            forall|i: int| 0 <= i < raw@.len() ==> #[trigger] s.dims@[i] == raw@[i] as usize,
    {
        let mut dims: Vec<usize> = Vec::new();
        let mut i: usize = 0;
        while i < raw.len()
            invariant
                i <= raw@.len(),
                dims@.len() == i,
                forall|j: int| 0 <= j < i ==> #[trigger] dims@[j] == raw@[j] as usize,
            decreases raw@.len() - i,
        {
            dims.push(raw[i] as usize);
            i = i + 1;
        }
        TensorShape { dims }
    }

    /// Return the total number of elements (product of all dimensions).
    ///
    /// An empty `dims` vector yields `1` (the identity element of
    /// multiplication).
    pub fn total_elements(&self) -> (n: usize)
        requires
            product_fits(self.dims@),
        ensures
            n == product(self.dims@),
    {
        let mut acc: usize = 1;
        let mut i: usize = 0;
        assert(self.dims@.take(0) =~= Seq::<usize>::empty());
        while i < self.dims.len()
            invariant
                i <= self.dims.len(),
                product_fits(self.dims@),
                acc == product(self.dims@.take(i as int)),
            decreases self.dims.len() - i,
        {
            assert(self.dims@.take(i + 1).drop_last() =~= self.dims@.take(i as int));
            assert(product(self.dims@.take(i + 1)) <= usize::MAX);
            acc = acc * self.dims[i];
            i = i + 1;
        }
        assert(self.dims@.take(i as int) =~= self.dims@);
        acc
    }
}

/// Metadata about a loaded model.
#[derive(Debug, Clone)]
pub struct ModelInfo {
    /// Path to the `.cvimodel` file on disk.
    pub path: std::path::PathBuf,
    /// Shape of the model's input tensor.
    pub input_shape: TensorShape,
    /// Shapes of the model's output tensors.
    pub output_shapes: Vec<TensorShape>,
}

/// The named components of a path, in order: the text between `/`
/// separators, without empty ones (repeated or trailing separators) and
/// without `.` (which `Path::components` drops after the start, and which is
/// never a file name).
pub open spec fn path_parts(p: Seq<char>) -> Seq<Seq<char>>
    decreases p.len(),
{
    if p.len() == 0 {
        Seq::empty()
    } else {
        let i = prefix_len(p, CharClass::IsNot('/'));
        let part = p.take(i as int);
        let rest = if i < p.len() {
            path_parts(p.skip(i + 1 as int))
        } else {
            Seq::empty()
        };
        if part.len() == 0 || part == "."@ {
            rest
        } else {
            seq![part] + rest
        }
    }
}

/// `Path::file_name`: the final component, unless there is none or it is `..`.
pub open spec fn path_file_name(p: Seq<char>) -> Option<Seq<char>> {
    let parts = path_parts(p);
    if parts.len() == 0 || parts.last() == ".."@ {
        None
    } else {
        Some(parts.last())
    }
}

/// `Path::extension`: the part of the file name after its last `.`; none
/// when there is no file name, no `.` in it, or only a leading `.`.
pub open spec fn path_extension(p: Seq<char>) -> Option<Seq<char>> {
    match path_file_name(p) {
        None => None,
        Some(name) => {
            let k = suffix_len(name, CharClass::IsNot('.'));
            if k >= name.len() || k + 1 == name.len() {
                None
            } else {
                Some(name.skip(name.len() - k))
            }
        },
    }
}

/// The extension of `path` (`std::path::Path::extension`, as text).
///
/// Claims that the result is `path_extension(path@)`, which restates the
/// documentation of `Path::extension` and `Path::file_name` for `/` as the
/// separator, as on the Linux systems the SDK runs on; a path made from a
/// `&str` is always valid text, so `to_str` never fails here.
#[verifier::external_body]
fn extension_of(path: &str) -> (r: Option<String>)
    ensures
        match path_extension(path@) {
            Some(e) => r matches Some(x) && x@ == e,
            None => r is None,
        },
{
    std::path::Path::new(path).extension().and_then(|e| e.to_str()).map(|e| e.to_string())
}

/// The message for a model path without the `.cvimodel` extension.
pub open spec fn wrong_extension_message(path: Seq<char>) -> Seq<char> {
    "expected .cvimodel extension, got: "@ + path
}

/// Judge a model path given its extension: only `.cvimodel` files load.
pub fn check_model_extension(path: &str, extension: Option<&str>) -> (r: Result<()>)
    ensures
        extension matches Some(e) && e@ == "cvimodel"@ ==> r is Ok,
        !(extension matches Some(e) && e@ == "cvimodel"@) ==> (r matches Err(Error::Inference(m))
            && m@ == wrong_extension_message(path@)),
{
    let ok = match extension {
        Some(e) => {
            let got = String::from_str(e);
            let want = String::from_str("cvimodel");
            got == want
        },
        None => false,
    };
    if ok {
        Ok(())
    } else {
        Err(Error::Inference(String::from_str("expected .cvimodel extension, got: ").concat(path)))
    }
}

/// Check that `path` names a `.cvimodel` file, as loading a model requires.
pub fn validate_model_path(path: &str) -> (r: Result<()>)
    ensures
        path_extension(path@) == Some("cvimodel"@) ==> r is Ok,
        path_extension(path@) != Some("cvimodel"@) ==> (r matches Err(Error::Inference(m)) && m@
            == wrong_extension_message(path@)),
{
    let ext = extension_of(path);
    match ext {
        Some(e) => check_model_extension(path, Some(e.as_str())),
        None => check_model_extension(path, None),
    }
}

/// How many input bytes are copied into an input tensor that holds
/// `tensor_count` bytes.
pub fn input_copy_len(data_len: usize, tensor_count: usize) -> (n: usize)
    ensures
        n == if data_len < tensor_count {
            data_len
        } else {
            tensor_count
        },
{
    if data_len < tensor_count {
        data_len
    } else {
        tensor_count
    }
}

/// Whether a model has an input tensor to describe and to fill: the runtime
/// reported `input_num` inputs and an input array that is present (non-null).
pub fn has_input(input_num: i32, inputs_present: bool) -> (b: bool)
    ensures
        b == (input_num > 0 && inputs_present),
{
    input_num > 0 && inputs_present
}

/// How many elements of an output tensor are read: its `count` elements
/// when its data is present (non-null) and `count` is positive; none
/// otherwise, which makes that output empty.
pub fn output_read_len(data_present: bool, count: usize) -> (n: usize)
    ensures
        n == if data_present && count > 0 {
            count
        } else {
            0
        },
{
    if data_present && count > 0 {
        count
    } else {
        0
    }
}

/// A call into the NPU runtime library.
#[derive(Debug, Clone, Copy, PartialEq, Eq, Structural)]
pub enum NnCall {
    /// `CVI_NN_RegisterModel`.
    RegisterModel,
    /// `CVI_NN_GetInputOutputTensors`.
    GetInputOutputTensors,
    /// `CVI_NN_TensorShape`.
    TensorShape,
    /// `CVI_NN_TensorPtr`.
    TensorPtr,
    /// `CVI_NN_TensorCount`.
    TensorCount,
    /// `CVI_NN_Forward`.
    Forward,
    /// `CVI_NN_CleanupModel`.
    CleanupModel,
}

/// The name of a runtime call without its `CVI_NN_` prefix.
pub open spec fn nn_label(c: NnCall) -> Seq<char> {
    match c {
        NnCall::RegisterModel => "RegisterModel"@,
        NnCall::GetInputOutputTensors => "GetInputOutputTensors"@,
        NnCall::TensorShape => "TensorShape"@,
        NnCall::TensorPtr => "TensorPtr"@,
        NnCall::TensorCount => "TensorCount"@,
        NnCall::Forward => "Forward"@,
        NnCall::CleanupModel => "CleanupModel"@,
    }
}

impl NnCall {
    /// The name of the call without its `CVI_NN_` prefix.
    pub fn label(&self) -> (s: &'static str)
        ensures
            s@ == nn_label(*self),
    {
        match self {
            NnCall::RegisterModel => "RegisterModel",
            NnCall::GetInputOutputTensors => "GetInputOutputTensors",
            NnCall::TensorShape => "TensorShape",
            NnCall::TensorPtr => "TensorPtr",
            NnCall::TensorCount => "TensorCount",
            NnCall::Forward => "Forward",
            NnCall::CleanupModel => "CleanupModel",
        }
    }

    /// The error for a runtime symbol that could not be resolved.
    pub fn symbol_error(&self, detail: &str) -> (e: Error)
        ensures
            e matches Error::Inference(m) && m@ == nn_label(*self) + " symbol: "@ + detail@,
    {
        Error::Inference(String::from_str(self.label()).concat(" symbol: ").concat(detail))
    }

    /// Judge the return code of a runtime call: anything but 0 is an error
    /// naming the call.
    pub fn check(&self, rc: i32) -> (r: Result<()>)
        ensures
            rc == 0 <==> r is Ok,
            rc != 0 ==> (r matches Err(Error::Inference(m)) && m@ == failure_message(
                "CVI_NN_"@ + nn_label(*self),
                rc,
            )),
    {
        if rc == 0 {
            Ok(())
        } else {
            let code = i32_to_decimal(rc);
            let m = String::from_str("CVI_NN_").concat(self.label()).concat(" failed (rc=").concat(
                code.as_str(),
            ).concat(")");
            Err(Error::Inference(m))
        }
    }
}

/// The message when the vendor libraries cannot be loaded.
pub open spec fn library_load_message(detail: Seq<char>) -> Seq<char> {
    "failed to load CVI libraries: "@ + detail
}

/// The message when the vendor libraries cannot be loaded, with the
/// loader's reason.
pub fn library_load_error_message(detail: &str) -> (m: String)
    ensures
        m@ == library_load_message(detail@),
{
    String::from_str("failed to load CVI libraries: ").concat(detail)
}


/// The shape made of raw runtime dimensions.
pub open spec fn shape_dims_of(raw: Seq<i32>) -> Seq<usize> {
    raw.map_values(|d: i32| d as usize)
}

impl ModelInfo {
    /// The metadata of a model loaded from `path`: the input shape from the
    /// first input's raw dimensions (empty when the model has no input), and
    /// one output shape per output's raw dimensions, in order.
    pub fn from_parts(
        path: std::path::PathBuf,
        input_dims: Option<&[i32]>,
        output_dims: &Vec<Vec<i32>>,
    ) -> (info: Self)
        ensures
            info.path == path,
            info.input_shape.dims@ == match input_dims {
                Some(d) => shape_dims_of(d@),
                None => Seq::<usize>::empty(),
            },
            info.output_shapes@.len() == output_dims@.len(),
            forall|i: int|
                0 <= i < output_dims@.len() ==> #[trigger] info.output_shapes@[i].dims@
                    == shape_dims_of(output_dims@[i]@),
    {
        let input_shape = match input_dims {
            Some(d) => TensorShape::from_raw_dims(d),
            None => TensorShape::new(Vec::new()),
        };
        proof {
            if let Some(d) = input_dims {
                assert(input_shape.dims@ =~= shape_dims_of(d@));
            } else {
                assert(input_shape.dims@ =~= Seq::<usize>::empty());
            }
        }
        let mut output_shapes: Vec<TensorShape> = Vec::new();
        let mut i: usize = 0;
        while i < output_dims.len()
            invariant
                i <= output_dims@.len(),
                output_shapes@.len() == i,
                forall|j: int|
                    0 <= j < i ==> #[trigger] output_shapes@[j].dims@ == shape_dims_of(
                        output_dims@[j]@,
                    ),
            decreases output_dims@.len() - i,
        {
            let shape = TensorShape::from_raw_dims(output_dims[i].as_slice());
            assert(shape.dims@ =~= shape_dims_of(output_dims@[i as int]@));
            output_shapes.push(shape);
            i = i + 1;
        }
        ModelInfo { path, input_shape, output_shapes }
    }
}

/// Where loading a model stands.
#[derive(Debug, Clone, Copy, PartialEq, Eq, Structural)]
pub enum LoadStage {
    /// The model file is to be registered.
    Register,
    /// The model's input and output tensors are to be queried.
    QueryTensors,
    /// The tensor query returned this non-zero code; the model is to be
    /// cleaned up before the load fails.
    Cleanup(i32),
    /// The model is loaded.
    Loaded,
    /// The load failed.
    Failed,
}

/// The runtime call that a load stage makes, if any.
pub open spec fn load_call(stage: LoadStage) -> Option<NnCall> {
    match stage {
        LoadStage::Register => Some(NnCall::RegisterModel),
        LoadStage::QueryTensors => Some(NnCall::GetInputOutputTensors),
        LoadStage::Cleanup(_) => Some(NnCall::CleanupModel),
        _ => None,
    }
}

/// One reported outcome of a load: the next stage and the message of the
/// error the report returns, if any. A missing symbol or a failed
/// registration ends the load at once; a failed tensor query first has the
/// model cleaned up (whose own result is ignored), then ends the load with
/// the query's error.
pub open spec fn load_step(stage: LoadStage, o: CallOutcome) -> (LoadStage, Option<Seq<char>>) {
    match stage {
        LoadStage::Register => match o {
            CallOutcome::SymbolMissing(d) => (
                LoadStage::Failed,
                Some(nn_label(NnCall::RegisterModel) + " symbol: "@ + d@),
            ),
            CallOutcome::Returned(rc) => if rc == 0 {
                (LoadStage::QueryTensors, None)
            } else {
                (
                    LoadStage::Failed,
                    Some(failure_message("CVI_NN_"@ + nn_label(NnCall::RegisterModel), rc)),
                )
            },
        },
        LoadStage::QueryTensors => match o {
            CallOutcome::SymbolMissing(d) => (
                LoadStage::Failed,
                Some(nn_label(NnCall::GetInputOutputTensors) + " symbol: "@ + d@),
            ),
            CallOutcome::Returned(rc) => if rc == 0 {
                (LoadStage::Loaded, None)
            } else {
                (LoadStage::Cleanup(rc), None)
            },
        },
        LoadStage::Cleanup(rc) => (
            LoadStage::Failed,
            if rc == 0 {
                None
            } else {
                Some(failure_message("CVI_NN_"@ + nn_label(NnCall::GetInputOutputTensors), rc))
            },
        ),
        _ => (stage, None),
    }
}

/// The runtime calls of loading a model, handed out one at a time, and the
/// judgement of their outcomes.
#[derive(Debug)]
pub struct ModelLoad {
    stage: LoadStage,
}

impl ModelLoad {
    /// Where the load stands.
    pub closed spec fn stage(&self) -> LoadStage {
        self.stage
    }

    /// A load that starts by registering the model file.
    pub fn new() -> (l: Self)
        ensures
            l.stage() == LoadStage::Register,
    {
        ModelLoad { stage: LoadStage::Register }
    }

    /// The runtime call to make next, or `None` when the load is over.
    pub fn next_call(&self) -> (c: Option<NnCall>)
        ensures
            c == load_call(self.stage()),
    {
        match self.stage {
            LoadStage::Register => Some(NnCall::RegisterModel),
            LoadStage::QueryTensors => Some(NnCall::GetInputOutputTensors),
            LoadStage::Cleanup(_) => Some(NnCall::CleanupModel),
            _ => None,
        }
    }

    /// Report how the call last handed out went.
    pub fn report(&mut self, outcome: &CallOutcome) -> (r: Result<()>)
        ensures
            final(self).stage() == load_step(old(self).stage(), *outcome).0,
            match load_step(old(self).stage(), *outcome).1 {
                None => r is Ok,
                Some(m) => r matches Err(Error::Inference(e)) && e@ == m,
            },
    {
        match self.stage {
            LoadStage::Register => match outcome {
                CallOutcome::SymbolMissing(d) => {
                    self.stage = LoadStage::Failed;
                    let e = NnCall::RegisterModel.symbol_error(d.as_str());
                    Err(e)
                },
                CallOutcome::Returned(rc) => {
                    if *rc == 0 {
                        self.stage = LoadStage::QueryTensors;
                        Ok(())
                    } else {
                        self.stage = LoadStage::Failed;
                        NnCall::RegisterModel.check(*rc)
                    }
                },
            },
            LoadStage::QueryTensors => match outcome {
                CallOutcome::SymbolMissing(d) => {
                    self.stage = LoadStage::Failed;
                    Err(NnCall::GetInputOutputTensors.symbol_error(d.as_str()))
                },
                CallOutcome::Returned(rc) => {
                    if *rc == 0 {
                        self.stage = LoadStage::Loaded;
                    } else {
                        self.stage = LoadStage::Cleanup(*rc);
                    }
                    Ok(())
                },
            },
            LoadStage::Cleanup(rc) => {
                self.stage = LoadStage::Failed;
                NnCall::GetInputOutputTensors.check(rc)
            },
            _ => Ok(()),
        }
    }

    /// Whether the model is loaded.
    pub fn is_loaded(&self) -> (b: bool)
        ensures
            b == (self.stage() == LoadStage::Loaded),
    {
        match self.stage {
            LoadStage::Loaded => true,
            _ => false,
        }
    }
}

/// A load whose registration and tensor query both return 0 is loaded after
/// those two calls; a tensor query that fails is always followed by the
/// model's cleanup before the load fails with the query's code.
pub proof fn lemma_load_sequence(rc: i32, cleanup: CallOutcome)
    ensures
        load_step(LoadStage::Register, CallOutcome::Returned(0)) == (
            LoadStage::QueryTensors,
            None::<Seq<char>>,
        ),
        load_step(LoadStage::QueryTensors, CallOutcome::Returned(0)) == (
            LoadStage::Loaded,
            None::<Seq<char>>,
        ),
        rc != 0 ==> load_step(LoadStage::QueryTensors, CallOutcome::Returned(rc)) == (
            LoadStage::Cleanup(rc),
            None::<Seq<char>>,
        ),
        rc != 0 ==> load_call(LoadStage::Cleanup(rc)) == Some(NnCall::CleanupModel),
        rc != 0 ==> load_step(LoadStage::Cleanup(rc), cleanup) == (
            LoadStage::Failed,
            Some(failure_message("CVI_NN_"@ + nn_label(NnCall::GetInputOutputTensors), rc)),
        ),
{
}

} // verus!
