//! Starting the worker, and what is reported when that fails.

use crate::relay::{Message, MessageView, MsgStatus};
use crate::text::join2;
use vstd::prelude::*;

verus! {

/// The name under which the worker's binary is bundled.
pub fn sidecar() -> (name: &'static str)
    ensures
        name@ == "oct-tf"@,
{
    "oct-tf"
}

/// The command line of the worker: the directory of the models, the
/// identifier of the model, and the path of the image, each behind its flag.
pub open spec fn arguments(dir: Seq<char>, model: Seq<char>, file: Seq<char>) -> Seq<Seq<char>> {
    seq!["-d"@, dir, "-n"@, model, "-i"@, file]
}

/// Builds `arguments`.
pub fn worker_args(dir: &str, model: &str, file: &str) -> (args: Vec<String>)
    ensures
        args.deep_view() == arguments(dir@, model@, file@),
{
    let mut args: Vec<String> = Vec::new();
    args.push(String::from_str("-d"));
    args.push(String::from_str(dir));
    args.push(String::from_str("-n"));
    args.push(String::from_str(model));
    args.push(String::from_str("-i"));
    args.push(String::from_str(file));
    args
}

/// Why a request never reached the worker. None of these is retried; each
/// is logged as an error.
#[derive(Debug, Clone, PartialEq, Eq)]
pub enum HostError {
    /// The main window is missing when a request comes in.
    Window,
    /// The main window is missing when a message is to be forwarded.
    RelayWindow,
    /// The directory of the models could not be resolved.
    Resource(String),
    /// The command for the worker could not be made.
    Command(String),
    /// The worker could not be started.
    Spawn(String),
}

impl HostError {
    /// The text that is logged for this error.
    pub open spec fn message_text(&self) -> Seq<char> {
        match self {
            HostError::Window => "Unable tot get main window"@,
            HostError::RelayWindow => "[ERROR] Unable tot get main window"@,
            HostError::Resource(cause) => "Unable to resolve models directory/folder!: "@
                + cause@,
            HostError::Command(cause) => "Failed to create `oct-tf` binary command: "@ + cause@,
            HostError::Spawn(cause) => "Failed to spawn sidecar: "@ + cause@,
        }
    }

    /// Writes `message_text`.
    pub fn message(&self) -> (text: String)
        ensures
            text@ == self.message_text(),
    {
        match self {
            HostError::Window => String::from_str("Unable tot get main window"),
            HostError::RelayWindow => String::from_str("[ERROR] Unable tot get main window"),
            HostError::Resource(cause) => join2(
                "Unable to resolve models directory/folder!: ",
                cause.as_str(),
            ),
            HostError::Command(cause) => join2(
                "Failed to create `oct-tf` binary command: ",
                cause.as_str(),
            ),
            HostError::Spawn(cause) => join2("Failed to spawn sidecar: ", cause.as_str()),
        }
    }

    /// The message to log for this error.
    pub fn report(&self) -> (message: Message)
        ensures
            message@ == (MessageView { inner: self.message_text(), status: MsgStatus::ERROR }),
    {
        Message { inner: self.message(), status: MsgStatus::ERROR }
    }
}

} // verus!
