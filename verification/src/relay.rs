//! From the worker's lifecycle to messages for the log and the interface.
//!
//! Whoever runs the worker sees it write lines, fail, and end. Each of these
//! events is turned into one `Message`: a text and a status. The caller logs
//! the message and forwards its text under `topic()`; nothing is dropped on
//! the way.

use crate::text::{dashes, join3, render_signed, rule, signed_decimal, trim, trimmed};
use vstd::prelude::*;

verus! {

/// How a message is tagged in the log.
#[derive(Debug, Clone, Copy, PartialEq, Eq, Structural)]
pub enum MsgStatus {
    /// The worker's answer.
    RESPONSE,
    /// Something went wrong.
    ERROR,
    /// Chatter of the inference runtime, and the end of the worker.
    LOG,
}

impl MsgStatus {
    /// The tag as it stands in a log line.
    pub open spec fn tag_text(self) -> Seq<char> {
        match self {
            MsgStatus::RESPONSE => "RESPONSE"@,
            MsgStatus::ERROR => "ERROR"@,
            MsgStatus::LOG => "LOG"@,
        }
    }

    /// Gives `tag_text`.
    pub fn tag(&self) -> (text: &'static str)
        ensures
            text@ == self.tag_text(),
    {
        match self {
            MsgStatus::RESPONSE => "RESPONSE",
            MsgStatus::ERROR => "ERROR",
            MsgStatus::LOG => "LOG",
        }
    }
}

/// How the worker ended: its exit code and the signal that stopped it, as
/// far as the system reported them.
#[derive(Debug, Clone, Copy, PartialEq, Eq)]
pub struct Termination {
    pub code: Option<i32>,
    pub signal: Option<i32>,
}

/// One thing that was seen of the worker.
#[derive(Debug, Clone, PartialEq, Eq)]
pub enum WorkerEvent {
    /// A line on its standard output.
    Stdout(String),
    /// A line on its standard error.
    Stderr(String),
    /// It could not be started, or its streams could not be read.
    Error(String),
    /// It ended.
    Terminated(Termination),
    /// Anything else.
    Unknown,
}

/// A text on its way to the log and to the interface.
#[derive(Debug, Clone, PartialEq, Eq)]
pub struct Message {
    pub inner: String,
    pub status: MsgStatus,
}

/// A `Message` as plain values.
pub struct MessageView {
    pub inner: Seq<char>,
    pub status: MsgStatus,
}

impl View for Message {
    type V = MessageView;

    open spec fn view(&self) -> MessageView {
        MessageView { inner: self.inner@, status: self.status }
    }
}

/// The width of the rule that closes an error or a termination in the log.
pub const RULE_WIDTH: usize = 100;

/// The channel on which every message is forwarded to the interface.
pub fn topic() -> (name: &'static str)
    ensures
        name@ == "prediction"@,
{
    "prediction"
}

/// An exit code or signal, as it is written out.
pub open spec fn optional_number_text(value: Option<i32>) -> Seq<char> {
    match value {
        Some(number) => "Some("@ + signed_decimal(number as int) + ")"@,
        None => "None"@,
    }
}

/// A termination, as it is written out.
pub open spec fn termination_text(end: Termination) -> Seq<char> {
    "TerminatedPayload { code: "@ + optional_number_text(end.code) + ", signal: "@
        + optional_number_text(end.signal) + " }"@
}

/// `text`, a line break, and the closing rule.
pub open spec fn ruled_off(text: Seq<char>) -> Seq<char> {
    text + "\n"@ + dashes(RULE_WIDTH as nat)
}

/// The message that an event is turned into. A line on standard output is
/// taken for the worker's response, a line on standard error for chatter;
/// both lose the white space around them. An error and anything unknown
/// are errors, the end of the worker is logged; these three are ruled off.
pub open spec fn message_of(event: WorkerEvent) -> MessageView {
    match event {
        WorkerEvent::Stdout(line) => MessageView {
            inner: trimmed(line@),
            status: MsgStatus::RESPONSE,
        },
        WorkerEvent::Stderr(line) => MessageView { inner: trimmed(line@), status: MsgStatus::LOG },
        WorkerEvent::Error(cause) => MessageView {
            inner: ruled_off(trimmed(cause@)),
            status: MsgStatus::ERROR,
        },
        WorkerEvent::Terminated(end) => MessageView {
            inner: ruled_off(termination_text(end)),
            status: MsgStatus::LOG,
        },
        WorkerEvent::Unknown => MessageView {
            inner: ruled_off("Unknown Event Encountered"@),
            status: MsgStatus::ERROR,
        },
    }
}

fn optional_number(value: Option<i32>) -> (text: String)
    ensures
        text@ == optional_number_text(value),
{
    match value {
        Some(number) => {
            let digits = render_signed(number as i64);
            join3("Some(", digits.as_str(), ")")
        },
        None => String::from_str("None"),
    }
}

fn rule_off(text: &str) -> (out: String)
    ensures
        out@ == ruled_off(text@),
{
    let line = rule(RULE_WIDTH);
    join3(text, "\n", line.as_str())
}

impl Termination {
    /// Writes `termination_text`.
    pub fn describe(&self) -> (text: String)
        ensures
            text@ == termination_text(*self),
    {
        let code = optional_number(self.code);
        let signal = optional_number(self.signal);
        let mut text = join3("TerminatedPayload { code: ", code.as_str(), ", signal: ");
        text.append(signal.as_str());
        text.append(" }");
        text
    }
}

impl Message {
    /// A message with the text `msg`, tagged `LOG`.
    pub fn new(msg: &str) -> (message: Message)
        ensures
            message@ == (MessageView { inner: msg@, status: MsgStatus::LOG }),
    {
        Message { inner: String::from_str(msg), status: MsgStatus::LOG }
    }

    /// A message with the text `inner` and the status of this one.
    pub fn set(&self, inner: &str) -> (message: Message)
        ensures
            message@ == (MessageView { inner: inner@, status: self.status }),
    {
        Message { inner: String::from_str(inner), status: self.status }
    }

    /// The message with the same text, tagged `status`.
    pub fn tagged(self, status: MsgStatus) -> (message: Message)
        ensures
            message@ == (MessageView { inner: self.inner@, status }),
    {
        Message { inner: self.inner, status }
    }

    /// The text of the log entry that reports that this message could not
    /// be forwarded, for the reason given.
    pub open spec fn emit_failure_text(status: MsgStatus, cause: Seq<char>) -> Seq<char> {
        status.tag_text() + " Failed to emit prediction event: "@ + cause
    }

    /// The message to log when forwarding this one failed: it keeps the
    /// status and says why.
    pub fn emit_failure(&self, cause: &str) -> (message: Message)
        ensures
            message@ == (MessageView {
                inner: Message::emit_failure_text(self.status, cause@),
                status: self.status,
            }),
    {
        let inner = join3(self.status.tag(), " Failed to emit prediction event: ", cause);
        Message { inner, status: self.status }
    }
}

/// Turns one event of the worker into the message to log and to forward.
pub fn relay(event: &WorkerEvent) -> (message: Message)
    ensures
        message@ == message_of(*event),
{
    let start = Message::new("");
    match event {
        WorkerEvent::Stdout(line) => start.set(trim(line.as_str())).tagged(MsgStatus::RESPONSE),
        WorkerEvent::Stderr(line) => start.set(trim(line.as_str())).tagged(MsgStatus::LOG),
        WorkerEvent::Error(cause) => {
            let text = rule_off(trim(cause.as_str()));
            start.set(text.as_str()).tagged(MsgStatus::ERROR)
        },
        WorkerEvent::Terminated(end) => {
            let text = rule_off(end.describe().as_str());
            start.set(text.as_str()).tagged(MsgStatus::LOG)
        },
        WorkerEvent::Unknown => {
            let text = rule_off("Unknown Event Encountered");
            start.set(text.as_str()).tagged(MsgStatus::ERROR)
        },
    }
}

/// What the events so far tell of the worker: it was started, and then,
/// once, it has ended.
#[derive(Debug, Clone, Copy, PartialEq, Eq, Structural)]
pub enum Lifecycle {
    Spawned,
    Exited,
}

/// The state after `event` was seen in `state`.
pub open spec fn lifecycle_after(state: Lifecycle, event: WorkerEvent) -> Lifecycle {
    if event is Terminated {
        Lifecycle::Exited
    } else {
        state
    }
}

impl Lifecycle {
    /// Takes note of `event`: gives the state that follows and the message
    /// for the event. There is a message for every event, in either state.
    pub fn observe(self, event: &WorkerEvent) -> (seen: (Lifecycle, Message))
        ensures
            seen.0 == lifecycle_after(self, *event),
            seen.1@ == message_of(*event),
    {
        let next = match event {
            WorkerEvent::Terminated(_) => Lifecycle::Exited,
            _ => self,
        };
        (next, relay(event))
    }
}

/// A worker that has ended stays ended, and only the event of its end ends
/// one that runs.
pub proof fn lemma_exit_is_final(state: Lifecycle, event: WorkerEvent)
    ensures
        lifecycle_after(Lifecycle::Exited, event) == Lifecycle::Exited,
        lifecycle_after(state, event) != state ==> event is Terminated && state
            == Lifecycle::Spawned,
{
}

/// The status of a message depends on the kind of its event alone: a
/// response for standard output, an error for a failure and for anything
/// unknown, a log entry for standard error and for the end.
pub proof fn lemma_status_follows_kind(event: WorkerEvent)
    ensures
        message_of(event).status == MsgStatus::RESPONSE <==> event is Stdout,
        message_of(event).status == MsgStatus::ERROR <==> event is Error || event is Unknown,
        message_of(event).status == MsgStatus::LOG <==> event is Stderr || event is Terminated,
{
}

} // verus!
