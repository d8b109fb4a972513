use oct_classifier::launch::{sidecar, worker_args, HostError};
use oct_classifier::relay::{Message, MsgStatus};

#[test]
fn worker_is_called_with_three_flagged_arguments() {
    assert_eq!(
        worker_args("/opt/app/models", "VGG16", "/tmp/eye.jpeg"),
        vec!["-d", "/opt/app/models", "-n", "VGG16", "-i", "/tmp/eye.jpeg"]
    );
}

#[test]
fn arguments_are_passed_as_they_are() {
    let args = worker_args("", "a b", "-i");
    assert_eq!(args, vec!["-d", "", "-n", "a b", "-i", "-i"]);
    assert_eq!(args.len(), 6);
}

#[test]
fn worker_binary_has_a_fixed_name() {
    assert_eq!(sidecar(), "oct-tf");
}

#[test]
fn host_errors_have_their_messages() {
    assert_eq!(HostError::Window.message(), "Unable tot get main window");
    assert_eq!(HostError::RelayWindow.message(), "[ERROR] Unable tot get main window");
    assert_eq!(
        HostError::Resource("[ERROR] Unable to resolve path: models".to_string()).message(),
        "Unable to resolve models directory/folder!: [ERROR] Unable to resolve path: models"
    );
    assert_eq!(
        HostError::Command("not found".to_string()).message(),
        "Failed to create `oct-tf` binary command: not found"
    );
    assert_eq!(
        HostError::Spawn("denied".to_string()).message(),
        "Failed to spawn sidecar: denied"
    );
}

#[test]
fn host_errors_are_logged_as_errors() {
    let report = HostError::Spawn("denied".to_string()).report();
    assert_eq!(
        report,
        Message { inner: "Failed to spawn sidecar: denied".to_string(), status: MsgStatus::ERROR }
    );
    assert_eq!(HostError::Window.report().status, MsgStatus::ERROR);
}
