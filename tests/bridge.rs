use lildbsh::bridge::{on_inbound, render_output, Inbound, ReaderStep};
use lildbsh::session::Event;

#[test]
fn messages_are_shown_on_a_fresh_line() {
    assert_eq!(render_output(&"1 row".to_string()), "\n\r1 row");
    assert_eq!(on_inbound(Inbound::Message("ok".to_string())), ReaderStep::Show("\n\rok".to_string()));
    assert_eq!(on_inbound(Inbound::Message(String::new())), ReaderStep::Show("\n\r".to_string()));
}

#[test]
fn end_of_stream_finishes_the_reader() {
    assert_eq!(on_inbound(Inbound::Ended), ReaderStep::Finished);
}

#[test]
fn read_failure_becomes_a_stream_failure() {
    assert_eq!(
        on_inbound(Inbound::Failed("reset".to_string())),
        ReaderStep::Report(Event::StreamFailed("reset".to_string()))
    );
}
