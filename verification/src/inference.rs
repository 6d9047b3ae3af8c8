//! The guess itself: what a run does with a grid before the model has run,
//! and what it does with the scores once the model has returned them.
//!
//! The forward pass is the caller's. It asks `guess` for the model's input,
//! runs the model on it, and asks again with the scores that came back.

use vstd::prelude::*;
use crate::error::PipelineError;
use crate::grid::GrayGrid;
use crate::scores::{comparable, is_first_maximum, predicted_label, select_label};
use crate::tensor::{build_tensor, InputTensor};

verus! {

/// What a guess comes to.
#[derive(Debug, PartialEq, Eq)]
pub enum Step {
    /// The model has not run: it is to be run once, on this input.
    Run(InputTensor),
    /// The model has run: this is the predicted label.
    Label(usize),
}

/// Takes the guess one step on. Without scores (`None`) the grid is built
/// into the model's input; with the scores of the forward pass the label is
/// picked from them. A grid that is not of the model's size fails either way,
/// and first.
pub fn guess(gray_img: &GrayGrid, scores: Option<&[u32]>) -> (result: Result<Step, PipelineError>)
    ensures
        match result {
            Ok(Step::Run(tensor)) => {
                &&& gray_img.is_model_sized()
                &&& scores is None
                &&& tensor.well_formed()
                &&& tensor@ == gray_img@
                &&& tensor.holds(*gray_img)
            },
            Ok(Step::Label(label)) => {
                &&& gray_img.is_model_sized()
                &&& scores matches Some(given)
                &&& comparable(given@)
                &&& label == predicted_label(given@)
                &&& is_first_maximum(given@, label as int)
            },
            Err(e) => if !gray_img.is_model_sized() {
                e == PipelineError::ShapeMismatch
            } else {
                &&& scores matches Some(given)
                &&& !comparable(given@)
                &&& e == PipelineError::OutputExtraction
            },
        },
{
    let tensor = match build_tensor(gray_img) {
        Ok(tensor) => tensor,
        Err(e) => {
            return Err(e);
        },
    };
    match scores {
        None => Ok(Step::Run(tensor)),
        Some(given) => match select_label(given) {
            Ok(label) => Ok(Step::Label(label)),
            Err(e) => Err(e),
        },
    }
}

} // verus!
