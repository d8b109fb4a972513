//! What can go wrong on the way from a request to a prediction, and how each
//! failure reads in the response.

use crate::labels::TOTAL_CLASSES;
use crate::text::{decimal, join2, join3, render_unsigned};
use vstd::prelude::*;

verus! {

/// A failure of one stage of the prediction pipeline. Each variant but
/// `Extraction` carries the text of its cause.
#[derive(Debug, Clone, PartialEq, Eq)]
pub enum PredictError {
    /// The inference runtime could not be brought up.
    Context(String),
    /// The model identifier, carried here, is not in the registry.
    UnknownModel(String),
    /// The graph bundle could not be loaded from the model directory.
    ModelLoad(String),
    /// The image could not be read, decoded, cast or resized.
    ImageLoad(String),
    /// An input or output name is missing from the graph's serving signature.
    Signature(String),
    /// The graph failed while it ran.
    Execution(String),
    /// The graph produced `found` scores where one per class was expected.
    Extraction { found: usize },
}

/// The text that reports a score count that does not match the label table.
pub open spec fn extraction_cause(found: nat) -> Seq<char> {
    "expected "@ + decimal(TOTAL_CLASSES as nat) + " class scores, found "@ + decimal(found)
}

impl PredictError {
    /// The message that a failure response carries for this error.
    pub open spec fn message_text(&self) -> Seq<char> {
        match self {
            PredictError::Context(cause) => "Failed to create tensorflow context: "@ + cause@,
            PredictError::UnknownModel(name) => "Failed to get tensorflow model: "@ + name@,
            PredictError::ModelLoad(cause) => "Failed to load tensorflow model: "@ + cause@,
            PredictError::ImageLoad(cause) => "Failed to load input image: "@ + cause@,
            PredictError::Signature(cause) => "Failed to predict input image: "@ + cause@,
            PredictError::Execution(cause) => "Failed to predict input image: "@ + cause@,
            PredictError::Extraction { found } => "Failed to predict input image: "@
                + extraction_cause(*found as nat),
        }
    }

    /// Writes `message_text`.
    pub fn message(&self) -> (text: String)
        ensures
            text@ == self.message_text(),
    {
        match self {
            PredictError::Context(cause) => join2(
                "Failed to create tensorflow context: ",
                cause.as_str(),
            ),
            PredictError::UnknownModel(name) => join2(
                "Failed to get tensorflow model: ",
                name.as_str(),
            ),
            PredictError::ModelLoad(cause) => join2(
                "Failed to load tensorflow model: ",
                cause.as_str(),
            ),
            PredictError::ImageLoad(cause) => join2("Failed to load input image: ", cause.as_str()),
            PredictError::Signature(cause) => join2(
                "Failed to predict input image: ",
                cause.as_str(),
            ),
            PredictError::Execution(cause) => join2(
                "Failed to predict input image: ",
                cause.as_str(),
            ),
            PredictError::Extraction { found } => {
                let expected = render_unsigned(TOTAL_CLASSES as u64);
                let count = render_unsigned(*found as u64);
                let mut text = join3(
                    "Failed to predict input image: ",
                    "expected ",
                    expected.as_str(),
                );
                text.append(" class scores, found ");
                text.append(count.as_str());
                text
            },
        }
    }
}

} // verus!
