//! The envelope in which the worker reports, success or failure alike.

use crate::error::PredictError;
use crate::prediction::{Prediction, PredictionView};
use crate::text::join2;
use vstd::prelude::*;

verus! {

/// What the worker answers: a prediction with `success` set, or a failure
/// with a message that says what went wrong.
#[derive(Debug, Clone, PartialEq, Eq)]
pub struct Response {
    pub success: bool,
    pub result: Option<Prediction>,
    pub message: String,
}

/// A `Response` as plain values.
pub struct ResponseView {
    pub success: bool,
    pub result: Option<PredictionView>,
    pub message: Seq<char>,
}

impl View for Response {
    type V = ResponseView;

    open spec fn view(&self) -> ResponseView {
        ResponseView {
            success: self.success,
            result: match self.result {
                Some(prediction) => Some(prediction@),
                None => None,
            },
            message: self.message@,
        }
    }
}

impl ResponseView {
    /// A result is present exactly when the response reports success.
    pub open spec fn wf(self) -> bool {
        self.success <==> self.result is Some
    }

    /// A result, where there is one, is a well-formed prediction of `model`,
    /// and the message names the class it predicts.
    pub open spec fn answers(self, model: Seq<char>) -> bool {
        match self.result {
            Some(prediction) => prediction.wf() && prediction.model == model && self.message
                == "Predicted: "@ + prediction.prediction,
            None => true,
        }
    }
}

/// The response that reports `message` as a failure.
pub open spec fn failure_of(message: Seq<char>) -> ResponseView {
    ResponseView { success: false, result: None, message }
}

/// The response that reports `prediction`.
pub open spec fn success_of(prediction: PredictionView) -> ResponseView {
    ResponseView {
        success: true,
        result: Some(prediction),
        message: "Predicted: "@ + prediction.prediction,
    }
}

/// The response to the outcome of a pipeline run: the prediction, or the
/// message of the error that stopped the run.
pub open spec fn reply_to(outcome: Result<Prediction, PredictError>) -> ResponseView {
    match outcome {
        Ok(prediction) => success_of(prediction@),
        Err(error) => failure_of(error.message_text()),
    }
}

impl Response {
    /// A failure that carries `msg`.
    pub fn failure(msg: String) -> (response: Response)
        ensures
            response@ == failure_of(msg@),
    {
        Response { success: false, result: None, message: msg }
    }

    /// A success that carries `prediction`; the message names the predicted
    /// class.
    pub fn success(prediction: Prediction) -> (response: Response)
        ensures
            response@ == success_of(prediction@),
    {
        let message = join2("Predicted: ", prediction.prediction.as_str());
        Response { success: true, result: Some(prediction), message }
    }

    /// Wraps the outcome of a pipeline run.
    pub fn from_outcome(outcome: Result<Prediction, PredictError>) -> (response: Response)
        ensures
            response@ == reply_to(outcome),
    {
        match outcome {
            Ok(prediction) => Response::success(prediction),
            Err(error) => Response::failure(error.message()),
        }
    }
}

impl Default for Response {
    /// A failure without a message.
    fn default() -> (response: Response)
        ensures
            response@ == failure_of(Seq::empty()),
    {
        Response { success: false, result: None, message: String::new() }
    }
}

/// Every response built from an outcome holds a result exactly when it
/// reports success; so do the two constructors' responses.
pub proof fn lemma_result_iff_success(
    outcome: Result<Prediction, PredictError>,
    message: Seq<char>,
    prediction: PredictionView,
)
    ensures
        reply_to(outcome).wf(),
        reply_to(outcome).success <==> outcome is Ok,
        failure_of(message).wf(),
        success_of(prediction).wf(),
{
}

} // verus!
