//! From the scores of one image to a ranked prediction.

use crate::error::PredictError;
use crate::labels::{class_name, class_table, classes, TOTAL_CLASSES};
use crate::score::{argmax, argmax_index, is_argmax, lemma_argmax_exists};
use vstd::prelude::*;

verus! {

/// The verdict on one image: the class that scored highest, its score, and
/// the full table of classes and scores behind it. Scores are percentages,
/// held as the bit patterns of single-precision numbers.
#[derive(Debug, Clone, PartialEq, Eq)]
pub struct Prediction {
    /// The identifier of the model that was asked.
    pub model: String,
    /// The code of the class with the greatest score.
    pub prediction: String,
    /// The score of that class.
    pub probability: u32,
    /// All class codes, in the order of the label table.
    pub classes: [String; TOTAL_CLASSES],
    /// The score of each class, in the same order.
    pub probabilities: [u32; TOTAL_CLASSES],
}

/// A `Prediction` as plain values.
pub struct PredictionView {
    pub model: Seq<char>,
    pub prediction: Seq<char>,
    pub probability: u32,
    pub classes: Seq<Seq<char>>,
    pub probabilities: Seq<u32>,
}

impl View for Prediction {
    type V = PredictionView;

    open spec fn view(&self) -> PredictionView {
        PredictionView {
            model: self.model@,
            prediction: self.prediction@,
            probability: self.probability,
            classes: self.classes.deep_view(),
            probabilities: self.probabilities@,
        }
    }
}

impl PredictionView {
    /// The classes are the label table, there is one score per class, and
    /// the reported class and score are those at the argmax of the scores.
    pub open spec fn wf(self) -> bool {
        &&& self.classes == class_table()
        &&& self.probabilities.len() == TOTAL_CLASSES
        &&& exists|best: int|
            is_argmax(self.probabilities, best) && self.prediction == self.classes[best]
                && self.probability == self.probabilities[best]
    }
}

/// Every prediction holds one class and one score for each entry of the
/// label table.
pub proof fn lemma_one_score_per_class(prediction: Prediction)
    ensures
        prediction@.classes.len() == TOTAL_CLASSES,
        prediction@.probabilities.len() == TOTAL_CLASSES,
{
}

/// The prediction that `scores` give for `model`; meaningful where there is
/// one score per class.
pub open spec fn ranked(model: Seq<char>, scores: Seq<u32>) -> PredictionView {
    let best = argmax_index(scores);
    PredictionView {
        model,
        prediction: class_table()[best],
        probability: scores[best],
        classes: class_table(),
        probabilities: scores,
    }
}

/// Ranks the scores of one image. With one score per class the result is
/// the prediction `ranked` describes, the scores and the label table
/// unchanged in it; with any other count it is an `Extraction` error that
/// carries the count.
pub fn extract(model: &str, scores: Vec<u32>) -> (outcome: Result<Prediction, PredictError>)
    ensures
        outcome is Ok <==> scores.len() == TOTAL_CLASSES,
        outcome matches Ok(prediction) ==> prediction@ == ranked(model@, scores@),
        outcome matches Err(error) ==> error == (PredictError::Extraction { found: scores.len() }),
{
    match argmax(&scores) {
        Some(best) if scores.len() == TOTAL_CLASSES => {
            let probabilities: [u32; TOTAL_CLASSES] = [
                scores[0],
                scores[1],
                scores[2],
                scores[3],
                scores[4],
                scores[5],
                scores[6],
                scores[7],
                scores[8],
            ];
            assert(probabilities@ =~= scores@);
            Ok(
                Prediction {
                    model: String::from_str(model),
                    prediction: String::from_str(class_name(best)),
                    probability: scores[best],
                    classes: classes(),
                    probabilities,
                },
            )
        },
        _ => Err(PredictError::Extraction { found: scores.len() }),
    }
}

/// Whatever the scores, as long as there is one per class: the prediction
/// has as many scores and classes as the label table has entries, the
/// scores are those that were handed in, none of them rescaled, and the
/// class and the score it reports are those at the argmax of the scores,
/// the lowest position winning a tie.
pub proof fn lemma_ranked_is_well_formed(model: Seq<char>, scores: Seq<u32>)
    requires
        scores.len() == TOTAL_CLASSES,
    ensures
        ranked(model, scores).wf(),
        ranked(model, scores).probabilities == scores,
        ranked(model, scores).probabilities.len() == 9,
        ranked(model, scores).classes.len() == 9,
{
    lemma_argmax_exists(scores);
}

} // verus!
