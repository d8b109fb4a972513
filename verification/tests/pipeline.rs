use oct_classifier::labels::classes;
use oct_classifier::pipeline::{Command, Outcome, Pipeline, Request, Stage, Step};
use oct_classifier::registry::ModelDetail;
use oct_classifier::response::Response;

fn request(name: &str) -> Request {
    Request {
        image: "scans/eye.jpeg".to_string(),
        name: name.to_string(),
        dir: "/srv/models".to_string(),
    }
}

fn bits(values: &[f32]) -> Vec<u32> {
    values.iter().map(|value| value.to_bits()).collect()
}

fn nine() -> Vec<u32> {
    bits(&[0.5, 1.25, 2.0, 0.25, 0.0, 95.5, 0.25, 0.125, 0.125])
}

fn drive(name: &str, outcomes: Vec<Outcome>) -> (Vec<Command>, Option<Response>) {
    let mut commands = Vec::new();
    let mut step = Pipeline::start(request(name));
    let mut outcomes = outcomes.into_iter();
    loop {
        match step {
            Step::Reply(response) => return (commands, Some(response)),
            Step::Continue(pipeline, command) => {
                commands.push(command);
                match outcomes.next() {
                    Some(outcome) => step = pipeline.advance(outcome),
                    None => return (commands, None),
                }
            }
        }
    }
}

fn vgg() -> ModelDetail {
    ModelDetail {
        name: "vgg".to_string(),
        dir: "/srv/models".to_string(),
        input: "vgg_input".to_string(),
        output: "vgg_output".to_string(),
    }
}

fn custom() -> ModelDetail {
    ModelDetail {
        name: "custom".to_string(),
        dir: "/srv/models".to_string(),
        input: "custom_input".to_string(),
        output: "custom_output".to_string(),
    }
}

fn failed(cause: &str) -> Outcome {
    Outcome::Failed(cause.to_string())
}

#[test]
fn unknown_model_is_answered_without_any_command() {
    let (commands, response) = drive("RESNET", vec![Outcome::Ready; 5]);
    assert!(commands.is_empty());
    let response = response.unwrap();
    assert!(!response.success);
    assert_eq!(response.result, None);
    assert_eq!(response.message, "Failed to get tensorflow model: RESNET");
}

#[test]
fn clean_run_hands_out_the_five_commands_in_order() {
    let outcomes = vec![
        Outcome::Ready,
        Outcome::Ready,
        Outcome::Ready,
        Outcome::Ready,
        Outcome::Scores(nine()),
    ];
    let (commands, response) = drive("VGG16", outcomes);
    assert_eq!(
        commands,
        vec![
            Command::CreateContext,
            Command::LoadImage { path: "scans/eye.jpeg".to_string() },
            Command::LoadModel(vgg()),
            Command::ResolveSignature {
                input: "vgg_input".to_string(),
                output: "vgg_output".to_string()
            },
            Command::Execute,
        ]
    );
    let response = response.unwrap();
    assert!(response.success);
    assert_eq!(response.message, "Predicted: DRUSEN");
    let prediction = response.result.unwrap();
    assert_eq!(prediction.model, "VGG16");
    assert_eq!(prediction.prediction, "DRUSEN");
    assert_eq!(f32::from_bits(prediction.probability), 95.5);
    assert_eq!(prediction.classes, classes());
    assert_eq!(prediction.probabilities.to_vec(), nine());
}

#[test]
fn clean_run_predicts_one_of_the_known_labels() {
    let outcomes = vec![
        Outcome::Ready,
        Outcome::Ready,
        Outcome::Ready,
        Outcome::Ready,
        Outcome::Scores(bits(&[3.0, 1.0, 0.5, 0.25, 80.0, 0.25, 0.5, 1.0, 13.5])),
    ];
    let (_, response) = drive("VGG16", outcomes);
    let response = response.unwrap();
    assert!(response.success);
    let prediction = response.result.unwrap();
    assert!(classes().contains(&prediction.prediction));
    assert_eq!(response.message, format!("Predicted: {}", prediction.prediction));
    assert_eq!(prediction.prediction, "DR");
}

#[test]
fn custom_model_is_driven_by_its_own_names() {
    let (commands, response) = drive("CUSTOM", vec![Outcome::Ready; 4]);
    assert_eq!(response, None);
    assert_eq!(commands[1], Command::LoadImage { path: "scans/eye.jpeg".to_string() });
    assert_eq!(commands[2], Command::LoadModel(custom()));
    assert_eq!(
        commands[3],
        Command::ResolveSignature {
            input: "custom_input".to_string(),
            output: "custom_output".to_string()
        }
    );
    assert_eq!(commands.len(), 5);
}

#[test]
fn missing_image_fails_without_a_prediction() {
    let outcomes = vec![Outcome::Ready, failed("scans/eye.jpeg; No such file")];
    let (commands, response) = drive("VGG16", outcomes);
    assert_eq!(
        commands,
        vec![Command::CreateContext, Command::LoadImage { path: "scans/eye.jpeg".to_string() }]
    );
    let response = response.unwrap();
    assert!(!response.success);
    assert_eq!(response.result, None);
    assert_eq!(response.message, "Failed to load input image: scans/eye.jpeg; No such file");
}

#[test]
fn missing_image_is_reported_whatever_the_model_directory() {
    let outcomes =
        vec![Outcome::Ready, failed("no such image"), failed("no such model directory")];
    for name in ["VGG16", "CUSTOM"] {
        let (commands, response) = drive(name, outcomes.clone());
        assert!(!commands.iter().any(|command| matches!(command, Command::LoadModel(_))));
        let response = response.unwrap();
        assert!(!response.success);
        assert_eq!(response.result, None);
        assert_eq!(response.message, "Failed to load input image: no such image");
    }
}

#[test]
fn model_that_does_not_load_is_reported_once_the_image_is_read() {
    let outcomes = vec![Outcome::Ready, Outcome::Ready, failed("no such model directory")];
    let (commands, response) = drive("VGG16", outcomes);
    assert_eq!(commands.len(), 3);
    assert_eq!(commands[2], Command::LoadModel(vgg()));
    let message = "Failed to load tensorflow model: no such model directory";
    assert_eq!(response, Some(Response::failure(message.to_string())));
}

#[test]
fn each_stage_fails_with_its_own_message() {
    let prefixes = [
        "Failed to create tensorflow context: ",
        "Failed to load input image: ",
        "Failed to load tensorflow model: ",
        "Failed to predict input image: ",
        "Failed to predict input image: ",
    ];
    for (stage, prefix) in prefixes.iter().enumerate() {
        let mut outcomes = vec![Outcome::Ready; stage];
        outcomes.push(failed("cause"));
        outcomes.push(Outcome::Scores(nine()));
        let (commands, response) = drive("VGG16", outcomes);
        assert_eq!(commands.len(), stage + 1);
        assert_eq!(response, Some(Response::failure(format!("{}cause", prefix))));
    }
}

#[test]
fn first_failure_wins() {
    let outcomes = vec![Outcome::Ready, failed("first"), failed("second")];
    let (_, response) = drive("VGG16", outcomes);
    assert_eq!(response.unwrap().message, "Failed to load input image: first");
    let later = vec![Outcome::Ready, Outcome::Ready, failed("second"), failed("third")];
    let (_, response) = drive("VGG16", later);
    assert_eq!(response.unwrap().message, "Failed to load tensorflow model: second");
}

#[test]
fn wrong_number_of_scores_is_a_failure() {
    let outcomes = vec![
        Outcome::Ready,
        Outcome::Ready,
        Outcome::Ready,
        Outcome::Ready,
        Outcome::Scores(bits(&[50.0, 50.0])),
    ];
    let (_, response) = drive("VGG16", outcomes);
    assert_eq!(
        response,
        Some(Response::failure(
            "Failed to predict input image: expected 9 class scores, found 2".to_string()
        ))
    );
}

#[test]
fn execution_without_scores_is_a_failure() {
    let (_, response) = drive("VGG16", vec![Outcome::Ready; 5]);
    assert_eq!(
        response,
        Some(Response::failure(
            "Failed to predict input image: expected 9 class scores, found 0".to_string()
        ))
    );
}

#[test]
fn scores_before_the_last_stage_count_as_ready() {
    let outcomes = vec![Outcome::Scores(nine()), Outcome::Scores(nine())];
    let (commands, response) = drive("VGG16", outcomes);
    assert_eq!(response, None);
    assert_eq!(commands.len(), 3);
    assert_eq!(commands[1], Command::LoadImage { path: "scans/eye.jpeg".to_string() });
    assert_eq!(commands[2], Command::LoadModel(vgg()));
}

#[test]
fn stages_follow_each_other() {
    let expected =
        [Stage::Context, Stage::Image, Stage::Model, Stage::Signature, Stage::Execution];
    let mut step = Pipeline::start(request("CUSTOM"));
    for stage in expected.iter() {
        match step {
            Step::Continue(pipeline, _) => {
                assert_eq!(pipeline.stage(), *stage);
                assert_eq!(*pipeline.request(), request("CUSTOM"));
                step = pipeline.advance(Outcome::Ready);
            }
            Step::Reply(_) => panic!("the run ended early"),
        }
    }
    assert!(matches!(step, Step::Reply(_)));
}

#[test]
fn every_reply_has_a_result_exactly_on_success() {
    let mut replies = Vec::new();
    replies.push(drive("RESNET", Vec::new()).1.unwrap());
    for stage in 0..5 {
        let mut outcomes = vec![Outcome::Ready; stage];
        outcomes.push(failed("x"));
        replies.push(drive("VGG16", outcomes).1.unwrap());
    }
    let mut clean = vec![Outcome::Ready; 4];
    clean.push(Outcome::Scores(nine()));
    replies.push(drive("CUSTOM", clean).1.unwrap());
    assert_eq!(replies.len(), 7);
    for reply in replies.iter() {
        assert_eq!(reply.success, reply.result.is_some());
    }
    assert!(replies[6].success);
}
