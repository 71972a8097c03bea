//! The reading side of the command stream: what to do with each item that
//! arrives from the server.

use vstd::prelude::*;
use crate::session::Event;

verus! {

/// Starts each server output on a fresh terminal line in raw mode.
pub const OUTPUT_PREFIX: &'static str = "\n\r";

/// One item read from the inbound half of the stream.
#[derive(Debug, Clone, PartialEq, Eq)]
pub enum Inbound {
    /// Output text produced by the server.
    Message(String),
    /// The server closed the stream.
    Ended,
    /// Reading failed.
    Failed(String),
}

/// What the reader does with an inbound item.
#[derive(Debug, Clone, PartialEq, Eq)]
pub enum ReaderStep {
    /// Write this text to the output and keep reading.
    Show(String),
    /// Stop reading: the stream is over.
    Finished,
    /// Stop reading and hand this event to the session.
    Report(Event),
}

/// The text written to the output for a server message.
pub open spec fn output_text(message: Seq<char>) -> Seq<char> {
    OUTPUT_PREFIX@ + message
}

/// The text written to the output for a server message.
pub fn render_output(message: &String) -> (r: String)
    ensures
        r@ == output_text(message@),
{
    let prefix = OUTPUT_PREFIX.to_owned();
    prefix.concat(message.as_str())
}

/// Decides what the reader does with one inbound item: output is shown in
/// the order it arrives, and a read failure becomes a stream failure event.
pub fn on_inbound(item: Inbound) -> (r: ReaderStep)
    ensures
        item matches Inbound::Message(m) ==> r matches ReaderStep::Show(t) && t@ == output_text(m@),
        item is Ended ==> r is Finished,
        item matches Inbound::Failed(e) ==> r == ReaderStep::Report(Event::StreamFailed(e)),
{
    match item {
        Inbound::Message(m) => ReaderStep::Show(render_output(&m)),
        Inbound::Ended => ReaderStep::Finished,
        Inbound::Failed(e) => ReaderStep::Report(Event::StreamFailed(e)),
    }
}

} // verus!
