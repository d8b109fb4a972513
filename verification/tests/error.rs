use oct_classifier::error::PredictError;

#[test]
fn each_error_has_its_message() {
    assert_eq!(
        PredictError::Context("no device".to_string()).message(),
        "Failed to create tensorflow context: no device"
    );
    assert_eq!(
        PredictError::UnknownModel("RESNET".to_string()).message(),
        "Failed to get tensorflow model: RESNET"
    );
    assert_eq!(
        PredictError::ModelLoad("missing".to_string()).message(),
        "Failed to load tensorflow model: missing"
    );
    assert_eq!(
        PredictError::ImageLoad("not a jpeg".to_string()).message(),
        "Failed to load input image: not a jpeg"
    );
    assert_eq!(
        PredictError::Signature("vgg_input".to_string()).message(),
        "Failed to predict input image: vgg_input"
    );
    assert_eq!(
        PredictError::Execution("aborted".to_string()).message(),
        "Failed to predict input image: aborted"
    );
    assert_eq!(
        PredictError::Extraction { found: 4 }.message(),
        "Failed to predict input image: expected 9 class scores, found 4"
    );
}

#[test]
fn an_empty_cause_leaves_the_prefix() {
    assert_eq!(
        PredictError::ImageLoad(String::new()).message(),
        "Failed to load input image: "
    );
}

#[test]
fn extraction_message_counts_in_decimal() {
    assert_eq!(
        PredictError::Extraction { found: 0 }.message(),
        "Failed to predict input image: expected 9 class scores, found 0"
    );
    assert_eq!(
        PredictError::Extraction { found: 1000 }.message(),
        "Failed to predict input image: expected 9 class scores, found 1000"
    );
}
