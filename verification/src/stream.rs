//! The decisions of the task that reads one incoming Flashblocks stream.
//! The stream carries one JSON-encoded payload per line; the task in
//! `app/` reads a line, decodes it, and asks `on_line` what to do.
use vstd::prelude::*;

verus! {

/// Why a stream-reading task ends.
#[derive(Debug, Clone, Copy, PartialEq, Eq, Structural)]
pub enum StreamError {
    /// A line did not decode into a payload.
    Decode,
    /// Reading a line from the stream failed.
    Read,
}

/// What came of reading the next line of a stream.
#[derive(Debug, Clone, Copy, PartialEq, Eq, Structural)]
pub enum LineEvent {
    /// A line was read and decoded into a payload.
    Decoded,
    /// A line was read and did not decode into a payload.
    Undecodable,
    /// Reading failed.
    ReadFailed,
    /// The reader had no line to give.
    Exhausted,
}

/// What the task does next.
#[derive(Debug, Clone, Copy, PartialEq, Eq, Structural)]
pub enum LineAction {
    /// Hand the decoded payload on, then read the next line.
    Forward,
    /// End the task with this error.
    Fail(StreamError),
    /// Read the next line.
    ReadNext,
}

/// The action for what came of a read.
pub open spec fn line_action(e: LineEvent) -> LineAction {
    match e {
        LineEvent::Decoded => LineAction::Forward,
        LineEvent::Undecodable => LineAction::Fail(StreamError::Decode),
        LineEvent::ReadFailed => LineAction::Fail(StreamError::Read),
        LineEvent::Exhausted => LineAction::ReadNext,
    }
}

/// Forwards each decoded payload, ends with an error when a line does not
/// decode or reading fails, and otherwise reads on.
pub fn on_line(event: LineEvent) -> (action: LineAction)
    ensures
        action == line_action(event),
{
    match event {
        LineEvent::Decoded => LineAction::Forward,
        LineEvent::Undecodable => LineAction::Fail(StreamError::Decode),
        LineEvent::ReadFailed => LineAction::Fail(StreamError::Read),
        LineEvent::Exhausted => LineAction::ReadNext,
    }
}

} // verus!
