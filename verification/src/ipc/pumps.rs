//! The decisions of the three pumps that sit on the child's pipes: what the
//! writer does with a message, and how a line of the child's error output is
//! classified.

use crate::text::{contains, contains_text, frame_line, framed, join2};
use vstd::prelude::*;

verus! {

/// A message for the writer pump.
#[derive(Debug)]
pub enum WriterMessage {
    /// A request line to write to the child.
    Request(String),
    /// The signal to stop.
    Shutdown,
}

/// What the writer pump does next.
#[derive(Debug)]
pub enum WriterAction {
    /// Write this text to the child's input and flush.
    Write(String),
    /// Stop.
    Stop,
}

/// Decides what the writer does with what it received: a request line is
/// written verbatim with one line feed after it; the stop signal, and the
/// end of the queue, stop the writer.
pub fn writer_action(message: Option<WriterMessage>) -> (action: WriterAction)
    ensures
        match message {
            Some(WriterMessage::Request(line)) => action matches WriterAction::Write(text)
                && text@ == framed(line@),
            Some(WriterMessage::Shutdown) => action is Stop,
            None => action is Stop,
        },
{
    match message {
        Some(WriterMessage::Request(line)) => WriterAction::Write(frame_line(line.as_str())),
        Some(WriterMessage::Shutdown) => WriterAction::Stop,
        None => WriterAction::Stop,
    }
}

/// Whether the writer goes on after a write: any failure to write or to
/// flush ends it.
pub fn writer_continues(written: bool, flushed: bool) -> (r: bool)
    ensures
        r == (written && flushed),
{
    written && flushed
}

/// Severity at which a line of the child's error output is passed on.
#[derive(Debug, Clone, Copy, PartialEq, Eq, Structural)]
pub enum Severity {
    /// An error.
    Error,
    /// A warning.
    Warning,
    /// Information.
    Info,
    /// Debugging output.
    Debug,
}

/// The severity of a line of the child's error output: an error where the
/// line holds `ERROR`, else a warning where it holds `WARNING`, else
/// debugging output where it holds `DEBUG`, else information.
pub open spec fn severity_of(line: Seq<char>) -> Severity {
    if contains_text(line, "ERROR"@) {
        Severity::Error
    } else if contains_text(line, "WARNING"@) {
        Severity::Warning
    } else if contains_text(line, "DEBUG"@) {
        Severity::Debug
    } else {
        Severity::Info
    }
}

/// Classifies a line of the child's error output by the severity marker it
/// holds.
pub fn classify_stderr(line: &str) -> (severity: Severity)
    ensures
        severity == severity_of(line@),
{
    if contains(line, "ERROR") {
        Severity::Error
    } else if contains(line, "WARNING") {
        Severity::Warning
    } else if contains(line, "DEBUG") {
        Severity::Debug
    } else {
        Severity::Info
    }
}

/// The text under which a line of the child's error output is passed on.
pub fn stderr_report(line: &str) -> (text: String)
    ensures
        text@ == "[Python] "@ + line@,
{
    join2("[Python] ", line)
}

} // verus!
