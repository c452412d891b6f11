use vstd::prelude::*;

verus! {

/// Every way in which extracting an embedding can fail.
#[derive(Clone, Copy, Debug, PartialEq, Eq, Structural)]
pub enum EmbeddingError {
    /// The bounding box has no area or reaches outside the image.
    InvalidRegion,
    /// The image is empty or does not have the expected channel count or size.
    UnsupportedShape,
    /// The model file is missing or malformed.
    ModelLoadError,
    /// The execution context or its tensors could not be set up.
    AllocationError,
    /// Running the model graph failed.
    InferenceError,
    /// No shape of two dimensions that accounts for the output buffer could
    /// be obtained for the output tensor.
    MissingOutputInfo,
}

impl EmbeddingError {
    /// A short human-readable description of the failure.
    pub fn message(&self) -> (text: &'static str)
        ensures
            text@ == Self::message_of(*self),
    {
        match self {
            EmbeddingError::InvalidRegion => "bounding box is empty or outside the image",
            EmbeddingError::UnsupportedShape => "image shape is not supported",
            EmbeddingError::ModelLoadError => "model file could not be loaded",
            EmbeddingError::AllocationError => "tensor allocation failed",
            EmbeddingError::InferenceError => "model execution failed",
            EmbeddingError::MissingOutputInfo => "missing embeddings outputs info",
        }
    }

    /// The text of [`EmbeddingError::message`] for each failure.
    pub open spec fn message_of(e: EmbeddingError) -> Seq<char> {
        match e {
            EmbeddingError::InvalidRegion => "bounding box is empty or outside the image"@,
            EmbeddingError::UnsupportedShape => "image shape is not supported"@,
            EmbeddingError::ModelLoadError => "model file could not be loaded"@,
            EmbeddingError::AllocationError => "tensor allocation failed"@,
            EmbeddingError::InferenceError => "model execution failed"@,
            EmbeddingError::MissingOutputInfo => "missing embeddings outputs info"@,
        }
    }
}

} // verus!
