use vstd::prelude::*;
use crate::error::EmbeddingError;
use crate::image::{lemma_index_is_a_pixel, pixel_index, Image};
use crate::tensor::{source_channel, to_tensor, InputTensor, CHANNELS, IMG_SIZE};

verus! {

/// Where the model file is looked for when no path is given.
pub const DEFAULT_MODEL_PATH: &'static str = "./models/face_embeddings.tflite";

/// One piece of work of an inference call, in the order in which they run.
#[derive(Clone, Copy, Debug, PartialEq, Eq, Structural)]
pub enum Stage {
    /// Set up an execution context for the loaded model.
    BuildContext,
    /// Allocate the input and output buffers of the context.
    AllocateTensors,
    /// Cut the face region out of the image.
    Crop,
    /// Bring the region to the input size and lay it out as a tensor.
    Preprocess,
    /// Copy the tensor into the input buffer.
    BindInput,
    /// Run the model graph.
    Invoke,
    /// Read the output buffer and the shape the model declares for it.
    ReadOutput,
    /// Scale every row of the output to unit length.
    Normalize,
}

/// What an inference call does after a stage has ended.
#[derive(Clone, Copy, Debug, PartialEq, Eq, Structural)]
pub enum Next {
    /// Go on with this stage.
    Run(Stage),
    /// Hand the embedding to the caller.
    Finished,
    /// Give up with this failure; nothing else is handed to the caller.
    Failed(EmbeddingError),
}

impl Stage {
    /// Place of the stage in the order of an inference call, from zero.
    pub open spec fn position(self) -> nat {
        match self {
            Stage::BuildContext => 0,
            Stage::AllocateTensors => 1,
            Stage::Crop => 2,
            Stage::Preprocess => 3,
            Stage::BindInput => 4,
            Stage::Invoke => 5,
            Stage::ReadOutput => 6,
            Stage::Normalize => 7,
        }
    }

    /// The stage that follows this one, if any.
    pub open spec fn successor(self) -> Option<Stage> {
        match self {
            Stage::BuildContext => Some(Stage::AllocateTensors),
            Stage::AllocateTensors => Some(Stage::Crop),
            Stage::Crop => Some(Stage::Preprocess),
            Stage::Preprocess => Some(Stage::BindInput),
            Stage::BindInput => Some(Stage::Invoke),
            Stage::Invoke => Some(Stage::ReadOutput),
            Stage::ReadOutput => Some(Stage::Normalize),
            Stage::Normalize => None,
        }
    }

    /// The failure an inference call reports when this stage does not
    /// succeed. Normalizing cannot fail: a row of zeros is left as it is.
    pub open spec fn failure(self) -> Option<EmbeddingError> {
        match self {
            Stage::BuildContext => Some(EmbeddingError::AllocationError),
            Stage::AllocateTensors => Some(EmbeddingError::AllocationError),
            Stage::Crop => Some(EmbeddingError::InvalidRegion),
            Stage::Preprocess => Some(EmbeddingError::UnsupportedShape),
            Stage::BindInput => Some(EmbeddingError::AllocationError),
            Stage::Invoke => Some(EmbeddingError::InferenceError),
            Stage::ReadOutput => Some(EmbeddingError::MissingOutputInfo),
            Stage::Normalize => None,
        }
    }

    /// What follows a stage that ended with the given outcome.
    pub open spec fn then_next(self, succeeded: bool) -> Next {
        if !succeeded && self.failure().is_some() {
            Next::Failed(self.failure().unwrap())
        } else if self.successor().is_some() {
            Next::Run(self.successor().unwrap())
        } else {
            Next::Finished
        }
    }
}

/// The stage an inference call begins with.
pub fn first_stage() -> (stage: Stage)
    ensures
        stage == Stage::BuildContext,
        stage.position() == 0,
{
    Stage::BuildContext
}

/// Decides what an inference call does once `stage` has ended.
///
/// A stage that did not succeed ends the call with the failure of that
/// stage; otherwise the next stage runs, and after the last one the call is
/// finished.
pub fn advance(stage: Stage, succeeded: bool) -> (next: Next)
    ensures
        next == stage.then_next(succeeded),
{
    if !succeeded {
        match stage {
            Stage::BuildContext | Stage::AllocateTensors | Stage::BindInput => {
                return Next::Failed(EmbeddingError::AllocationError);
            },
            Stage::Crop => {
                return Next::Failed(EmbeddingError::InvalidRegion);
            },
            Stage::Preprocess => {
                return Next::Failed(EmbeddingError::UnsupportedShape);
            },
            Stage::Invoke => {
                return Next::Failed(EmbeddingError::InferenceError);
            },
            Stage::ReadOutput => {
                return Next::Failed(EmbeddingError::MissingOutputInfo);
            },
            Stage::Normalize => {},
        }
    }
    match stage {
        Stage::BuildContext => Next::Run(Stage::AllocateTensors),
        Stage::AllocateTensors => Next::Run(Stage::Crop),
        Stage::Crop => Next::Run(Stage::Preprocess),
        Stage::Preprocess => Next::Run(Stage::BindInput),
        Stage::BindInput => Next::Run(Stage::Invoke),
        Stage::Invoke => Next::Run(Stage::ReadOutput),
        Stage::ReadOutput => Next::Run(Stage::Normalize),
        Stage::Normalize => Next::Finished,
    }
}

/// An inference call never returns to a stage it has left: the stage that
/// follows lies exactly one place further on, so a call ends after at most
/// eight stages, and it is finished only after the last of them.
pub proof fn lemma_stages_move_forward(stage: Stage, succeeded: bool)
    ensures
        stage.then_next(succeeded) matches Next::Run(following) ==> following.position()
            == stage.position() + 1,
        stage.then_next(succeeded) == Next::Finished ==> stage == Stage::Normalize,
        stage.then_next(succeeded) matches Next::Failed(e) ==> !succeeded && stage.failure()
            == Some(e),
        stage.position() < 8,
{
}

/// The output of the model viewed as rows: the declared extents multiply to
/// the number of values in the output buffer.
pub open spec fn output_is_consistent(dims: Seq<usize>, data_len: int) -> bool {
    dims.len() >= 2 && dims[0] * dims[1] == data_len
}

/// Reads the shape `(rows, embedding width)` of the raw embedding off the
/// extents that the model declares for its output, and checks it against the
/// number of values in the output buffer.
///
/// The width is whatever the model declares. Fewer than two declared
/// extents, or a buffer whose length is not the product of the first two,
/// give `MissingOutputInfo`.
pub fn output_shape(dims: &Vec<usize>, data_len: usize) -> (res: Result<
    (usize, usize),
    EmbeddingError,
>)
    ensures
        res.is_ok() <==> output_is_consistent(dims@, data_len as int),
        res matches Ok(shape) ==> shape.0 == dims@[0] && shape.1 == dims@[1],
        res matches Err(e) ==> e == EmbeddingError::MissingOutputInfo,
{
    if dims.len() < 2 {
        return Err(EmbeddingError::MissingOutputInfo);
    }
    let rows: usize = dims[0];
    let width: usize = dims[1];
    match rows.checked_mul(width) {
        Some(n) => {
            if n == data_len {
                Ok((rows, width))
            } else {
                Err(EmbeddingError::MissingOutputInfo)
            }
        },
        None => Err(EmbeddingError::MissingOutputInfo),
    }
}

/// Describes an embedding model session: where its model file lies and how
/// the pixels of a face are fed to it.
#[derive(Debug)]
pub struct FaceEmbeddings {
    model_path: String,
    reverse_channels: bool,
}

impl FaceEmbeddings {
    /// Path of the model file.
    pub closed spec fn spec_model_path(&self) -> Seq<char> {
        self.model_path@
    }

    /// Whether the channels of every pixel swap ends on the way to the model.
    pub closed spec fn spec_reverse_channels(&self) -> bool {
        self.reverse_channels
    }

    /// A session on the model file at `model_path`, or at
    /// [`DEFAULT_MODEL_PATH`] when no path is given. Pixels keep their
    /// channel order.
    pub fn new(model_path: Option<String>) -> (session: FaceEmbeddings)
        ensures
            session.spec_model_path() == (match model_path {
                Some(path) => path@,
                None => DEFAULT_MODEL_PATH@,
            }),
            !session.spec_reverse_channels(),
    {
        let path = match model_path {
            Some(path) => path,
            None => DEFAULT_MODEL_PATH.to_owned(),
        };
        FaceEmbeddings { model_path: path, reverse_channels: false }
    }

    /// The same session with the channel order set: with `reverse` the
    /// channels of every pixel swap ends on the way to the model.
    pub fn with_reversed_channels(self, reverse: bool) -> (session: FaceEmbeddings)
        ensures
            session.spec_model_path() == self.spec_model_path(),
            session.spec_reverse_channels() == reverse,
    {
        FaceEmbeddings { model_path: self.model_path, reverse_channels: reverse }
    }

    /// Path of the model file.
    pub fn model_path(&self) -> (path: &str)
        ensures
            path@ == self.spec_model_path(),
    {
        self.model_path.as_str()
    }

    /// Whether the channels of every pixel swap ends on the way to the model.
    pub fn reverse_channels(&self) -> (reverse: bool)
        ensures
            reverse == self.spec_reverse_channels(),
    {
        self.reverse_channels
    }

    /// Lays out a face region that has been brought to 112 by 112 pixels as
    /// the batch of shape `(1, 112, 112, 3)` the model is fed with, in the
    /// channel order of this session: the level at row `y`, column `x` and
    /// channel `c` is that of the pixel `(x, y)` of the region. A region of any
    /// other size or channel count gives `UnsupportedShape`.
    pub fn input_tensor(&self, resized: &Image) -> (res: Result<InputTensor, EmbeddingError>)
        requires
            resized.wf(),
        ensures
            res.is_ok() <==> resized.spec_height() == IMG_SIZE && resized.spec_width() == IMG_SIZE
                && resized.spec_channels() == CHANNELS,
            res matches Ok(t) ==> Self::feeds(t, resized, self.spec_reverse_channels()),
            res matches Err(e) ==> e == EmbeddingError::UnsupportedShape,
    {
        let tensor = match to_tensor(resized, (IMG_SIZE, IMG_SIZE), self.reverse_channels) {
            Ok(tensor) => tensor,
            Err(e) => {
                return Err(e);
            },
        };
        proof {
            assert(tensor.spec_shape().0 * tensor.spec_shape().1 * tensor.spec_shape().2 == 37632)
                by (nonlinear_arith)
                requires
                    tensor.spec_shape().0 == 112,
                    tensor.spec_shape().1 == 112,
                    tensor.spec_shape().2 == 3,
            ;
        }
        let batch = tensor.into_batch();
        proof {
            assert forall|y: int, x: int, c: int|
                0 <= y < IMG_SIZE && 0 <= x < IMG_SIZE && 0 <= c < CHANNELS implies batch@[
            #[trigger] pixel_index(IMG_SIZE as int, CHANNELS as int, x, y, c)]
                == resized.spec_pixel(
                x,
                y,
                source_channel(c, self.spec_reverse_channels()),
            ) by {
                assert(tensor.spec_at(y, x, c) == resized.spec_pixel(
                    x,
                    y,
                    source_channel(c, self.spec_reverse_channels()),
                ));
            }
        }
        Ok(batch)
    }

    /// The model input is a function of the face region and the channel
    /// order: any two batches that feed the same region the same way have the
    /// same shape and the same levels.
    pub proof fn lemma_input_is_unique(
        a: InputTensor,
        b: InputTensor,
        resized: &Image,
        reverse_channels: bool,
    )
        requires
            Self::feeds(a, resized, reverse_channels),
            Self::feeds(b, resized, reverse_channels),
        ensures
            a@ == b@,
            a.spec_dims() == b.spec_dims(),
    {
        assert forall|i: int| 0 <= i < a@.len() implies a@[i] == b@[i] by {
            let pos = lemma_index_is_a_pixel(112, 112, 3, i);
            assert(a@[pixel_index(IMG_SIZE as int, CHANNELS as int, pos.0, pos.1, pos.2)]
                == resized.spec_pixel(pos.0, pos.1, source_channel(pos.2, reverse_channels)));
            assert(b@[pixel_index(IMG_SIZE as int, CHANNELS as int, pos.0, pos.1, pos.2)]
                == resized.spec_pixel(pos.0, pos.1, source_channel(pos.2, reverse_channels)));
        }
        assert(a@ =~= b@);
    }

    /// `batch` is the model input for the face region `resized`: its shape
    /// is `(1, 112, 112, 3)`, and its level at row `y`, column `x` and channel
    /// `c` is that of the pixel `(x, y)` of the region, the channels of every
    /// pixel reversed if `reverse_channels` is set.
    pub open spec fn feeds(batch: InputTensor, resized: &Image, reverse_channels: bool) -> bool {
        &&& batch.spec_dims() == seq![1usize, IMG_SIZE, IMG_SIZE, CHANNELS]
        &&& batch@.len() == 37632
        &&& forall|y: int, x: int, c: int|
            0 <= y < IMG_SIZE && 0 <= x < IMG_SIZE && 0 <= c < CHANNELS ==> batch@[
            #[trigger] pixel_index(IMG_SIZE as int, CHANNELS as int, x, y, c)]
                == resized.spec_pixel(x, y, source_channel(c, reverse_channels))
    }
}

} // verus!
