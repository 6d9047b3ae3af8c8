//! Failures of the classification pipeline and the stage each belongs to.

use vstd::prelude::*;

verus! {

/// Why an image file could not be turned into pixels.
#[derive(Debug, PartialEq, Eq)]
pub enum DecodeFailure {
    /// The path does not exist or its contents could not be read.
    Unreadable,
    /// The path's extension names no image format that is known.
    UnknownFormat,
    /// The contents are not a well-formed image of the format the path names.
    /// Holds the decoder's own account of what is wrong with them.
    Undecodable(String),
}

/// The part of a run in which a failure arose, as named in diagnostics.
#[derive(Clone, Copy, Debug, PartialEq, Eq)]
pub enum Stage {
    Decode,
    ShapeValidation,
    ModelLoad,
    Inference,
}

/// Every way a run can fail. A failure ends the run: no stage substitutes a
/// default image, tensor or label.
#[derive(Debug, PartialEq, Eq)]
pub enum PipelineError {
    /// The image file is missing, unreadable or not a recognised image.
    Decode(DecodeFailure),
    /// A grid's or tensor's dimensions are not the ones the model takes.
    ShapeMismatch,
    /// The model file is missing, corrupt or of an incompatible version.
    ModelLoad,
    /// The forward pass failed.
    Inference,
    /// The model's output cannot be read as per-class scores.
    OutputExtraction,
}

impl PipelineError {
    /// The stage that a failure is reported under. Reading the output belongs
    /// to the run of the model.
    pub open spec fn stage_of(self) -> Stage {
        match self {
            PipelineError::Decode(_) => Stage::Decode,
            PipelineError::ShapeMismatch => Stage::ShapeValidation,
            PipelineError::ModelLoad => Stage::ModelLoad,
            PipelineError::Inference => Stage::Inference,
            PipelineError::OutputExtraction => Stage::Inference,
        }
    }

    pub fn stage(&self) -> (stage: Stage)
        ensures
            stage == self.stage_of(),
    {
        match self {
            PipelineError::Decode(_) => Stage::Decode,
            PipelineError::ShapeMismatch => Stage::ShapeValidation,
            PipelineError::ModelLoad => Stage::ModelLoad,
            PipelineError::Inference => Stage::Inference,
            PipelineError::OutputExtraction => Stage::Inference,
        }
    }

    /// Whether the failure is that of contents that did not decode.
    pub open spec fn is_undecodable(self) -> bool {
        match self {
            PipelineError::Decode(DecodeFailure::Undecodable(_)) => true,
            _ => false,
        }
    }

    /// The underlying cause of a failure, where the library was given one:
    /// the decoder's account of contents that it could not decode.
    pub open spec fn cause_of(self) -> Option<Seq<char>> {
        match self {
            PipelineError::Decode(DecodeFailure::Undecodable(account)) => Some(account@),
            _ => None,
        }
    }

    pub fn cause(&self) -> (text: Option<&str>)
        ensures
            match text {
                Some(account) => self.cause_of() == Some(account@),
                None => self.cause_of() is None,
            },
    {
        match self {
            PipelineError::Decode(DecodeFailure::Undecodable(account)) => Some(account.as_str()),
            _ => None,
        }
    }

    /// The diagnostic text of a failure: the stage's name, then what failed.
    pub open spec fn message_of(self) -> Seq<char> {
        match self {
            PipelineError::Decode(DecodeFailure::Unreadable) =>
                "decode: the image file could not be read"@,
            PipelineError::Decode(DecodeFailure::UnknownFormat) =>
                "decode: the file extension names no known image format"@,
            PipelineError::Decode(DecodeFailure::Undecodable(_)) =>
                "decode: the file contents are not a valid image"@,
            PipelineError::ShapeMismatch =>
                "shape validation: the dimensions are not the ones the model takes"@,
            PipelineError::ModelLoad =>
                "model load: the model file is missing, corrupt or incompatible"@,
            PipelineError::Inference =>
                "inference: the forward pass failed"@,
            PipelineError::OutputExtraction =>
                "inference: the output holds no comparable per-class scores"@,
        }
    }

    pub fn message(&self) -> (text: &'static str)
        ensures
            text@ == self.message_of(),
    {
        match self {
            PipelineError::Decode(DecodeFailure::Unreadable) =>
                "decode: the image file could not be read",
            PipelineError::Decode(DecodeFailure::UnknownFormat) =>
                "decode: the file extension names no known image format",
            PipelineError::Decode(DecodeFailure::Undecodable(_)) =>
                "decode: the file contents are not a valid image",
            PipelineError::ShapeMismatch =>
                "shape validation: the dimensions are not the ones the model takes",
            PipelineError::ModelLoad =>
                "model load: the model file is missing, corrupt or incompatible",
            PipelineError::Inference =>
                "inference: the forward pass failed",
            PipelineError::OutputExtraction =>
                "inference: the output holds no comparable per-class scores",
        }
    }
}

impl Stage {
    /// The stage's name as diagnostics print it.
    pub open spec fn name_of(self) -> Seq<char> {
        match self {
            Stage::Decode => "decode"@,
            Stage::ShapeValidation => "shape validation"@,
            Stage::ModelLoad => "model load"@,
            Stage::Inference => "inference"@,
        }
    }

    pub fn name(&self) -> (text: &'static str)
        ensures
            text@ == self.name_of(),
    {
        match self {
            Stage::Decode => "decode",
            Stage::ShapeValidation => "shape validation",
            Stage::ModelLoad => "model load",
            Stage::Inference => "inference",
        }
    }
}

} // verus!
