//! The models that can be asked for, and where each keeps its graph.

use crate::error::PredictError;
use crate::resource::{outcome_view, resolved, Resource};
use crate::text::same_text;
use vstd::prelude::*;

verus! {

/// What is needed to load and drive one model.
#[derive(Debug, Clone, PartialEq, Eq)]
pub struct ModelDetail {
    /// The subdirectory of the model, below `dir`.
    pub name: String,
    /// The directory that holds all models.
    pub dir: String,
    /// The name of the input in the graph's serving signature.
    pub input: String,
    /// The name of the output in the graph's serving signature.
    pub output: String,
}

/// A `ModelDetail` as plain text.
pub struct ModelDetailView {
    pub name: Seq<char>,
    pub dir: Seq<char>,
    pub input: Seq<char>,
    pub output: Seq<char>,
}

impl View for ModelDetail {
    type V = ModelDetailView;

    open spec fn view(&self) -> ModelDetailView {
        ModelDetailView {
            name: self.name@,
            dir: self.dir@,
            input: self.input@,
            output: self.output@,
        }
    }
}

/// Whether the registry has an entry for `id`.
pub open spec fn is_known_model(id: Seq<char>) -> bool {
    id == "VGG16"@ || id == "CUSTOM"@
}

/// The registry's entry for `id`, with `dir` as the directory of all models;
/// meaningful for a known `id`.
pub open spec fn entry_of(id: Seq<char>, dir: Seq<char>) -> ModelDetailView {
    if id == "VGG16"@ {
        ModelDetailView { name: "vgg"@, dir, input: "vgg_input"@, output: "vgg_output"@ }
    } else {
        ModelDetailView { name: "custom"@, dir, input: "custom_input"@, output: "custom_output"@ }
    }
}

/// Looks `id` up in the registry. A known identifier gives its entry, bound
/// to `dir`; any other is reported as `UnknownModel`, with the identifier.
pub fn lookup(id: &str, dir: &str) -> (found: Result<ModelDetail, PredictError>)
    ensures
        found is Ok <==> is_known_model(id@),
        found matches Ok(detail) ==> detail@ == entry_of(id@, dir@),
        found matches Err(error) ==> error matches PredictError::UnknownModel(name) && name@
            == id@,
{
    if same_text(id, "VGG16") {
        Ok(
            ModelDetail {
                name: String::from_str("vgg"),
                dir: String::from_str(dir),
                input: String::from_str("vgg_input"),
                output: String::from_str("vgg_output"),
            },
        )
    } else if same_text(id, "CUSTOM") {
        Ok(
            ModelDetail {
                name: String::from_str("custom"),
                dir: String::from_str(dir),
                input: String::from_str("custom_input"),
                output: String::from_str("custom_output"),
            },
        )
    } else {
        Err(PredictError::UnknownModel(String::from_str(id)))
    }
}

/// The directory that holds the graph bundle of a model: the model's
/// subdirectory below the directory of all models.
pub fn model_dir(detail: &ModelDetail) -> (outcome: Result<Resource, String>)
    ensures
        outcome_view(outcome) == resolved(Some(detail@.dir), detail@.name),
        outcome is Ok,
{
    Resource::new(Some(detail.dir.as_str()), detail.name.as_str())
}

/// The two identifiers of the registry are different names, and their
/// entries keep their graphs in different subdirectories.
pub proof fn lemma_entries_are_distinct(dir: Seq<char>)
    ensures
        "VGG16"@ != "CUSTOM"@,
        entry_of("VGG16"@, dir).name != entry_of("CUSTOM"@, dir).name,
        entry_of("VGG16"@, dir).dir == dir,
        entry_of("CUSTOM"@, dir).dir == dir,
{
    reveal_strlit("VGG16");
    reveal_strlit("CUSTOM");
    reveal_strlit("vgg");
    reveal_strlit("custom");
    assert("VGG16"@.len() != "CUSTOM"@.len());
    assert("vgg"@.len() != "custom"@.len());
}

} // verus!
