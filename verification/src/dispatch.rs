//! What is to be done with a message: it is logged, and it is forwarded.
//!
//! Logging is best effort. Where no log entry can be made, or where the
//! caller cannot write it, the message is forwarded all the same.

use crate::logfile::{
    clock_pattern, date_pattern, entry_of, entry_view, kolkata_text, log_entry, LogEntry,
    LogEntryView,
};
use crate::relay::{topic, Message, MessageView};
use vstd::prelude::*;

verus! {

/// One thing for the caller to do with a message.
#[derive(Debug, Clone, PartialEq, Eq)]
pub enum Delivery {
    /// Append the line of the entry to the log file that the entry names. A
    /// failure to do so is passed over in silence.
    Append(LogEntry),
    /// Send the text of `message` to the interface, on channel `topic`.
    Emit { topic: String, message: Message },
}

/// A `Delivery` as plain values.
pub enum DeliveryView {
    Append(LogEntryView),
    Emit { topic: Seq<char>, message: MessageView },
}

impl DeepView for Delivery {
    type V = DeliveryView;

    open spec fn deep_view(&self) -> DeliveryView {
        match self {
            Delivery::Append(entry) => DeliveryView::Append(entry@),
            Delivery::Emit { topic, message } => DeliveryView::Emit {
                topic: topic@,
                message: message@,
            },
        }
    }
}

/// The forwarding of `message`.
pub open spec fn emit_of(message: MessageView) -> DeliveryView {
    DeliveryView::Emit { topic: "prediction"@, message }
}

/// What is done with `message`, given the log entry that could be made for
/// it: the entry is appended first, if there is one, and then the message
/// is forwarded.
pub open spec fn plan_of(message: MessageView, entry: Option<LogEntryView>) -> Seq<DeliveryView> {
    match entry {
        Some(entry) => seq![DeliveryView::Append(entry), emit_of(message)],
        None => seq![emit_of(message)],
    }
}

/// Lays out `plan_of` for a log entry that was made already, or could not
/// be made.
pub fn plan_with(message: Message, entry: Option<LogEntry>) -> (todo: Vec<Delivery>)
    ensures
        todo.deep_view() == plan_of(message@, entry_view(entry)),
{
    let mut todo: Vec<Delivery> = Vec::new();
    if let Some(entry) = entry {
        todo.push(Delivery::Append(entry));
    }
    todo.push(Delivery::Emit { topic: String::from_str(topic()), message });
    assert(todo.deep_view() =~= plan_of(message@, entry_view(entry)));
    todo
}

/// What is to be done with `message` at `secs` seconds after the Unix
/// epoch: the log entry is that of the message's text and status at that
/// time.
pub fn plan(message: Message, secs: i64) -> (todo: Vec<Delivery>)
    ensures
        todo.deep_view() == plan_of(
            message@,
            entry_of(
                kolkata_text(secs as int, date_pattern()),
                kolkata_text(secs as int, clock_pattern()),
                message@.status,
                message@.inner,
            ),
        ),
{
    let entry = log_entry(secs, message.status, message.inner.as_str());
    plan_with(message, entry)
}

/// Whether or not there is a log entry, the message is forwarded, once, as
/// the last thing that is done; an entry, where there is one, is appended
/// before that, and nothing else is done.
pub proof fn lemma_forwarding_never_waits_for_the_log(
    message: MessageView,
    entry: Option<LogEntryView>,
)
    ensures
        plan_of(message, entry).last() == emit_of(message),
        entry is Some ==> plan_of(message, entry).len() == 2,
        entry is None ==> plan_of(message, entry).len() == 1,
        forall|at: int|
            0 <= at < plan_of(message, entry).len() - 1 ==> #[trigger] plan_of(message, entry)[at]
                == DeliveryView::Append(entry.unwrap()),
{
}

} // verus!
