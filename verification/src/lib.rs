//! Classification of a handwritten digit: an image file becomes a 28 by 28
//! grayscale grid, the grid becomes the model's input tensor, and the scores
//! that the model returns become the predicted label.
//!
//! Reading files and running the model are the caller's part. The library
//! takes the bytes that were read and the scores that came back.

pub mod error;
pub mod grid;
pub mod inference;
pub mod loader;
pub mod model;
pub mod scores;
pub mod tensor;

pub use error::{DecodeFailure, PipelineError, Stage};
pub use grid::{GrayGrid, GRID_SIDE};
pub use inference::{guess, Step};
pub use loader::{decoder_input, grid_of_decoding, normalize_image, preprocess_image};
pub use model::{intra_threads, MAX_INTRA_THREADS, MODEL_PATH};
pub use scores::select_label;
pub use tensor::{build_tensor, InputTensor, INTENSITY_SCALE};
