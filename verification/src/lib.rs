//! Face-signature extraction: the integer side of the pipeline that turns a
//! detected face region into the input of an embedding model and validates
//! what the model hands back.
//!
//! * [`region`]: bounding boxes and the crop rectangle they denote.
//! * [`image`]: an owned interleaved 8-bit pixel buffer and the region cropper.
//! * [`tensor`]: the `(height, width, channels)` layout the model is fed with.
//! * [`session`]: the model session descriptor, the order of the inference
//!   stages with the failure each one reports, and output-shape validation.
//! * [`error`]: the failure taxonomy shared by all of them.

pub mod error;
pub mod region;
pub mod image;
pub mod tensor;
pub mod session;
