//! The worker's run, as a machine that decides and a caller that acts.
//!
//! The machine never touches the inference runtime. It names the next thing
//! to do as a `Command`; the caller does it and reports back with an
//! `Outcome`; the machine answers with the next command, or with the one
//! `Response` that ends the run.

use crate::error::{extraction_cause, PredictError};
use crate::labels::TOTAL_CLASSES;
use crate::prediction::{extract, lemma_ranked_is_well_formed, ranked};
use crate::registry::{entry_of, is_known_model, lookup, ModelDetail, ModelDetailView};
use crate::response::{failure_of, success_of, Response, ResponseView};
use vstd::prelude::*;

verus! {

/// What the worker is asked: which image, which model, and where the models
/// are kept.
#[derive(Debug, Clone, PartialEq, Eq)]
pub struct Request {
    /// Path of the image to classify.
    pub image: String,
    /// Identifier of the model to ask.
    pub name: String,
    /// Directory that holds all models.
    pub dir: String,
}

/// A `Request` as plain text.
pub struct RequestView {
    pub image: Seq<char>,
    pub name: Seq<char>,
    pub dir: Seq<char>,
}

impl View for Request {
    type V = RequestView;

    open spec fn view(&self) -> RequestView {
        RequestView { image: self.image@, name: self.name@, dir: self.dir@ }
    }
}

/// The stages of a run, in the order in which they are gone through. A run
/// is in a stage while the command of that stage is being carried out.
#[derive(Debug, Clone, Copy, PartialEq, Eq, Structural)]
pub enum Stage {
    /// Bringing up the inference runtime.
    Context,
    /// Reading and preprocessing the image.
    Image,
    /// Loading the graph bundle of the model.
    Model,
    /// Finding the input and output of the graph by their signature names.
    Signature,
    /// Running the graph on the image.
    Execution,
}

/// What the caller is to do next.
#[derive(Debug, Clone, PartialEq, Eq)]
pub enum Command {
    /// Bring up the inference runtime.
    CreateContext,
    /// Read the image at `path` and preprocess it.
    LoadImage { path: String },
    /// Load the serving graph bundle of the model, from the directory that
    /// `registry::model_dir` gives for it.
    LoadModel(ModelDetail),
    /// Find the operations behind the signature names `input` and `output`.
    ResolveSignature { input: String, output: String },
    /// Feed the image to the graph and fetch the scores, as percentages.
    Execute,
}

/// A `Command` as plain text.
pub enum CommandView {
    CreateContext,
    LoadImage { path: Seq<char> },
    LoadModel(ModelDetailView),
    ResolveSignature { input: Seq<char>, output: Seq<char> },
    Execute,
}

impl View for Command {
    type V = CommandView;

    open spec fn view(&self) -> CommandView {
        match self {
            Command::CreateContext => CommandView::CreateContext,
            Command::LoadImage { path } => CommandView::LoadImage { path: path@ },
            Command::LoadModel(detail) => CommandView::LoadModel(detail@),
            Command::ResolveSignature { input, output } => CommandView::ResolveSignature {
                input: input@,
                output: output@,
            },
            Command::Execute => CommandView::Execute,
        }
    }
}

/// What came of the last command.
#[derive(Debug, Clone, PartialEq, Eq)]
pub enum Outcome {
    /// It was carried out; there is nothing to hand back.
    Ready,
    /// It was carried out, and these are the scores the graph gave.
    Scores(Vec<u32>),
    /// It failed, for the reason given.
    Failed(String),
}

/// An `Outcome` as plain values.
pub enum OutcomeView {
    Ready,
    Scores(Seq<u32>),
    Failed(Seq<char>),
}

impl View for Outcome {
    type V = OutcomeView;

    open spec fn view(&self) -> OutcomeView {
        match self {
            Outcome::Ready => OutcomeView::Ready,
            Outcome::Scores(scores) => OutcomeView::Scores(scores@),
            Outcome::Failed(cause) => OutcomeView::Failed(cause@),
        }
    }
}

/// A run that has not ended: the request it serves and the stage it is in.
#[derive(Debug)]
pub struct Pipeline {
    request: Request,
    detail: ModelDetail,
    stage: Stage,
}

/// A `Pipeline` as plain values.
pub struct PipelineView {
    pub request: RequestView,
    pub stage: Stage,
}

impl View for Pipeline {
    type V = PipelineView;

    closed spec fn view(&self) -> PipelineView {
        PipelineView { request: self.request@, stage: self.stage }
    }
}

/// The machine's answer: go on with a command, or end the run with a
/// response.
#[derive(Debug)]
pub enum Step {
    Continue(Pipeline, Command),
    Reply(Response),
}

/// A `Step` as plain values.
pub enum StepView {
    Continue(PipelineView, CommandView),
    Reply(ResponseView),
}

impl View for Step {
    type V = StepView;

    open spec fn view(&self) -> StepView {
        match self {
            Step::Continue(pipeline, command) => StepView::Continue(pipeline@, command@),
            Step::Reply(response) => StepView::Reply(response@),
        }
    }
}

/// The place of a stage in the order of a run.
pub open spec fn stage_number(stage: Stage) -> nat {
    match stage {
        Stage::Context => 0,
        Stage::Image => 1,
        Stage::Model => 2,
        Stage::Signature => 3,
        Stage::Execution => 4,
    }
}

/// The command that is carried out in `stage` of a run for `request`.
pub open spec fn command_of(stage: Stage, request: RequestView) -> CommandView {
    let entry = entry_of(request.name, request.dir);
    match stage {
        Stage::Context => CommandView::CreateContext,
        Stage::Image => CommandView::LoadImage { path: request.image },
        Stage::Model => CommandView::LoadModel(entry),
        Stage::Signature => CommandView::ResolveSignature {
            input: entry.input,
            output: entry.output,
        },
        Stage::Execution => CommandView::Execute,
    }
}

/// How the message of a failure in `stage` begins.
pub open spec fn failure_prefix(stage: Stage) -> Seq<char> {
    match stage {
        Stage::Context => "Failed to create tensorflow context: "@,
        Stage::Image => "Failed to load input image: "@,
        Stage::Model => "Failed to load tensorflow model: "@,
        Stage::Signature => "Failed to predict input image: "@,
        Stage::Execution => "Failed to predict input image: "@,
    }
}

/// The scores that an outcome hands back: those of `Scores`, none otherwise.
pub open spec fn scores_of(outcome: OutcomeView) -> Seq<u32> {
    match outcome {
        OutcomeView::Scores(scores) => scores,
        _ => Seq::empty(),
    }
}

/// The response that ends a run for `model` whose graph gave `scores`.
pub open spec fn verdict(model: Seq<char>, scores: Seq<u32>) -> ResponseView {
    if scores.len() == TOTAL_CLASSES {
        success_of(ranked(model, scores))
    } else {
        failure_of("Failed to predict input image: "@ + extraction_cause(scores.len()))
    }
}

/// How a run begins. A request for a model that the registry does not know
/// is answered at once; any other run starts by bringing up the runtime.
pub open spec fn first_step(request: RequestView) -> StepView {
    if is_known_model(request.name) {
        StepView::Continue(
            PipelineView { request, stage: Stage::Context },
            command_of(Stage::Context, request),
        )
    } else {
        StepView::Reply(failure_of("Failed to get tensorflow model: "@ + request.name))
    }
}

/// How a run in `state` goes on when its command came to `outcome`. A
/// failure ends the run with the message of its stage. Otherwise the run
/// moves to the next stage, and after the last stage it ends with the
/// verdict on the scores. The image is read before the model is loaded, so
/// an image that cannot be read is reported whatever becomes of the model.
pub open spec fn next_step(state: PipelineView, outcome: OutcomeView) -> StepView {
    match outcome {
        OutcomeView::Failed(cause) => StepView::Reply(
            failure_of(failure_prefix(state.stage) + cause),
        ),
        _ => match state.stage {
            Stage::Context => go_on(state.request, Stage::Image),
            Stage::Image => go_on(state.request, Stage::Model),
            Stage::Model => go_on(state.request, Stage::Signature),
            Stage::Signature => go_on(state.request, Stage::Execution),
            Stage::Execution => StepView::Reply(verdict(state.request.name, scores_of(outcome))),
        },
    }
}

/// The step that takes a run for `request` into `stage`.
pub open spec fn go_on(request: RequestView, stage: Stage) -> StepView {
    StepView::Continue(PipelineView { request, stage }, command_of(stage, request))
}

impl Pipeline {
    #[verifier::type_invariant]
    spec fn inv(self) -> bool {
        &&& is_known_model(self.request.name@)
        &&& self.detail@ == entry_of(self.request.name@, self.request.dir@)
    }

    /// Begins a run for `request`.
    pub fn start(request: Request) -> (step: Step)
        ensures
            step@ == first_step(request@),
    {
        match lookup(request.name.as_str(), request.dir.as_str()) {
            Ok(detail) => Step::Continue(
                Pipeline { request, detail, stage: Stage::Context },
                Command::CreateContext,
            ),
            Err(error) => Step::Reply(Response::failure(error.message())),
        }
    }

    /// The stage the run is in.
    pub fn stage(&self) -> (stage: Stage)
        ensures
            stage == self@.stage,
    {
        self.stage
    }

    /// The request the run serves. Its model is one that the registry
    /// knows: no run begins for any other.
    pub fn request(&self) -> (request: &Request)
        ensures
            request@ == self@.request,
            is_known_model(request@.name),
    {
        proof {
            use_type_invariant(self);
        }
        &self.request
    }

    /// Takes the outcome of the command that was last handed out and says
    /// how the run goes on.
    pub fn advance(self, outcome: Outcome) -> (step: Step)
        ensures
            step@ == next_step(self@, outcome@),
    {
        proof {
            use_type_invariant(&self);
        }
        let Pipeline { request, detail, stage } = self;
        match outcome {
            Outcome::Failed(cause) => {
                let error = match stage {
                    Stage::Context => PredictError::Context(cause),
                    Stage::Image => PredictError::ImageLoad(cause),
                    Stage::Model => PredictError::ModelLoad(cause),
                    Stage::Signature => PredictError::Signature(cause),
                    Stage::Execution => PredictError::Execution(cause),
                };
                Step::Reply(Response::failure(error.message()))
            },
            other => match stage {
                Stage::Context => {
                    let command = Command::LoadImage { path: request.image.clone() };
                    Step::Continue(Pipeline { request, detail, stage: Stage::Image }, command)
                },
                Stage::Image => {
                    let command = Command::LoadModel(
                        ModelDetail {
                            name: detail.name.clone(),
                            dir: detail.dir.clone(),
                            input: detail.input.clone(),
                            output: detail.output.clone(),
                        },
                    );
                    Step::Continue(Pipeline { request, detail, stage: Stage::Model }, command)
                },
                Stage::Model => {
                    let command = Command::ResolveSignature {
                        input: detail.input.clone(),
                        output: detail.output.clone(),
                    };
                    Step::Continue(Pipeline { request, detail, stage: Stage::Signature }, command)
                },
                Stage::Signature => Step::Continue(
                    Pipeline { request, detail, stage: Stage::Execution },
                    Command::Execute,
                ),
                Stage::Execution => {
                    let scores = match other {
                        Outcome::Scores(scores) => scores,
                        _ => Vec::new(),
                    };
                    Step::Reply(Response::from_outcome(extract(request.name.as_str(), scores)))
                },
            },
        }
    }
}

/// The stage with the given place in the order of a run.
pub open spec fn stage_at(number: nat) -> Stage {
    if number == 0 {
        Stage::Context
    } else if number == 1 {
        Stage::Image
    } else if number == 2 {
        Stage::Model
    } else if number == 3 {
        Stage::Signature
    } else {
        Stage::Execution
    }
}

/// The response that a run in `state` ends with when its commands come to
/// `outcomes`, one after the other; `None` while the outcomes do not reach
/// the end of the run.
pub open spec fn run(state: PipelineView, outcomes: Seq<OutcomeView>) -> Option<ResponseView>
    decreases outcomes.len(),
{
    if outcomes.len() == 0 {
        None
    } else {
        match next_step(state, outcomes[0]) {
            StepView::Reply(response) => Some(response),
            StepView::Continue(next, _) => run(next, outcomes.drop_first()),
        }
    }
}

/// The run for `request` while it is in `stage`.
pub open spec fn at_stage(request: RequestView, stage: Stage) -> PipelineView {
    PipelineView { request, stage }
}

/// An image that cannot be read is reported as such, whatever becomes of
/// the model: once the runtime is up the image is the first thing asked for,
/// and its failure ends the run before any model is loaded.
pub proof fn lemma_missing_image_is_reported(
    request: RequestView,
    ready: OutcomeView,
    cause: Seq<char>,
)
    requires
        is_known_model(request.name),
        !(ready is Failed),
    ensures
        first_step(request) == StepView::Continue(
            at_stage(request, Stage::Context),
            CommandView::CreateContext,
        ),
        next_step(at_stage(request, Stage::Context), ready) == StepView::Continue(
            at_stage(request, Stage::Image),
            CommandView::LoadImage { path: request.image },
        ),
        next_step(at_stage(request, Stage::Image), OutcomeView::Failed(cause)) == StepView::Reply(
            failure_of("Failed to load input image: "@ + cause),
        ),
        run(at_stage(request, Stage::Context), seq![ready, OutcomeView::Failed(cause)]) == Some(
            failure_of("Failed to load input image: "@ + cause),
        ),
{
    let outcomes = seq![ready, OutcomeView::Failed(cause)];
    lemma_first_failure_is_reported(at_stage(request, Stage::Context), outcomes, 1, cause);
}

/// A request for a model that the registry does not know is answered at
/// once, with a failure that names the model: no command is handed out, so
/// no graph is ever loaded for it. A request for a known model starts with
/// the runtime.
pub proof fn lemma_unknown_model_is_refused(request: RequestView)
    ensures
        !is_known_model(request.name) ==> first_step(request) == StepView::Reply(
            failure_of("Failed to get tensorflow model: "@ + request.name),
        ),
        is_known_model(request.name) ==> first_step(request) == go_on(request, Stage::Context),
{
}

/// Whatever ends a run, at its start or after any outcome, holds a result
/// exactly when it reports success; a result is a well-formed prediction
/// for the model that was asked, and the message names its class.
pub proof fn lemma_replies_are_well_formed(
    request: RequestView,
    state: PipelineView,
    outcome: OutcomeView,
)
    ensures
        first_step(request) matches StepView::Reply(response) ==> response.wf()
            && !response.success,
        next_step(state, outcome) matches StepView::Reply(response) ==> response.wf()
            && response.answers(state.request.name),
{
    if scores_of(outcome).len() == TOTAL_CLASSES {
        lemma_ranked_is_well_formed(state.request.name, scores_of(outcome));
    }
}

/// A run goes on only after an outcome that is no failure, and then into
/// the stage that follows, for the same request, with the command of that
/// stage.
pub proof fn lemma_run_moves_forward(state: PipelineView, outcome: OutcomeView)
    ensures
        next_step(state, outcome) matches StepView::Continue(next, command) ==> !(outcome is Failed)
            && next.request == state.request && stage_number(next.stage) == stage_number(
            state.stage,
        ) + 1 && command == command_of(next.stage, state.request),
        outcome is Failed ==> next_step(state, outcome) is Reply,
        state.stage == Stage::Execution ==> next_step(state, outcome) is Reply,
{
}

/// A run ends once every stage that is left has had its outcome.
pub proof fn lemma_run_ends(state: PipelineView, outcomes: Seq<OutcomeView>)
    requires
        outcomes.len() + stage_number(state.stage) >= 5,
    ensures
        run(state, outcomes) is Some,
    decreases outcomes.len(),
{
    match next_step(state, outcomes[0]) {
        StepView::Reply(_) => {},
        StepView::Continue(next, _) => {
            lemma_run_ends(next, outcomes.drop_first());
        },
    }
}

/// The first failure among the outcomes ends the run, and the response
/// reports it with the message of the stage in which it happened.
pub proof fn lemma_first_failure_is_reported(
    state: PipelineView,
    outcomes: Seq<OutcomeView>,
    at: int,
    cause: Seq<char>,
)
    requires
        0 <= at < outcomes.len(),
        stage_number(state.stage) + at <= 4,
        outcomes[at] == OutcomeView::Failed(cause),
        forall|earlier: int| 0 <= earlier < at ==> !(#[trigger] outcomes[earlier] is Failed),
    ensures
        run(state, outcomes) == Some(
            failure_of(failure_prefix(stage_at((stage_number(state.stage) + at) as nat)) + cause),
        ),
    decreases at,
{
    if at > 0 {
        match next_step(state, outcomes[0]) {
            StepView::Reply(_) => {},
            StepView::Continue(next, _) => {
                lemma_first_failure_is_reported(next, outcomes.drop_first(), at - 1, cause);
            },
        }
    }
}

/// A run in which nothing fails ends with the verdict on what the last
/// stage handed back: a prediction where that was one score per class.
pub proof fn lemma_clean_run_ends_in_verdict(state: PipelineView, outcomes: Seq<OutcomeView>)
    requires
        outcomes.len() + stage_number(state.stage) == 5,
        forall|each: int| 0 <= each < outcomes.len() ==> !(#[trigger] outcomes[each] is Failed),
    ensures
        run(state, outcomes) == Some(verdict(state.request.name, scores_of(outcomes.last()))),
        scores_of(outcomes.last()).len() == TOTAL_CLASSES ==> run(state, outcomes) == Some(
            success_of(ranked(state.request.name, scores_of(outcomes.last()))),
        ),
    decreases outcomes.len(),
{
    assert(!(outcomes[0] is Failed));
    match next_step(state, outcomes[0]) {
        StepView::Reply(_) => {},
        StepView::Continue(next, _) => {
            lemma_clean_run_ends_in_verdict(next, outcomes.drop_first());
        },
    }
}

} // verus!
