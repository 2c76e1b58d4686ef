use session_pipeline::error::Code;
use session_pipeline::error::Status;
use session_pipeline::service::event_messages;
use session_pipeline::service::EventConfigRequest;
use session_pipeline::service::EventProducer;
use session_pipeline::service::TestMessage;
use session_pipeline::service::TestMessageGreeter;

fn msg(content: &str) -> Result<TestMessage, Status> {
    Ok(TestMessage { content: content.to_string() })
}

fn transport_error() -> Result<TestMessage, Status> {
    Err(Status { code: Code::Internal, message: "broken item".to_string() })
}

#[test]
fn unary_echo() {
    let greeter = TestMessageGreeter;
    let response = greeter.send_message(TestMessage { content: "hello".to_string() });
    assert_eq!(response.content, "hello");
}

#[test]
fn aggregate_joins_with_commas() {
    let greeter = TestMessageGreeter;
    let response = greeter.stream_message(vec![msg("x"), msg("y"), msg("z")]);
    assert_eq!(response.content, "x,y,z");
}

#[test]
fn aggregate_of_empty_stream_is_empty() {
    let greeter = TestMessageGreeter;
    let response = greeter.stream_message(vec![]);
    assert_eq!(response.content, "");
}

#[test]
fn aggregate_skips_transport_errors() {
    let greeter = TestMessageGreeter;
    let response = greeter.stream_message(vec![msg("x"), transport_error(), msg("z")]);
    assert_eq!(response.content, "x,z");
}

#[test]
fn relay_preserves_order() {
    let greeter = TestMessageGreeter;
    let out = greeter.chat_message(vec![msg("a"), msg("b")]);
    let contents: Vec<String> = out.into_iter().map(|m| m.content).collect();
    assert_eq!(contents, vec!["a".to_string(), "b".to_string()]);
}

#[test]
fn relay_skips_transport_errors_per_item() {
    let greeter = TestMessageGreeter;
    assert_eq!(greeter.relay_response(msg("a")).unwrap().content, "a");
    assert!(greeter.relay_response(transport_error()).is_none());
}

#[test]
fn three_events_in_order() {
    let v = event_messages(EventConfigRequest { count: 3, delay: 10 });
    let contents: Vec<String> = v.into_iter().map(|m| m.content).collect();
    assert_eq!(
        contents,
        vec![
            "message: 1".to_string(),
            "message: 2".to_string(),
            "message: 3".to_string(),
        ]
    );
}

#[test]
fn producer_stops_after_count() {
    let mut p = EventProducer::new(EventConfigRequest { count: 1, delay: 0 });
    assert_eq!(p.step().unwrap().content, "message: 1");
    assert!(p.step().is_none());
    assert!(p.step().is_none());
}

#[test]
fn cancelled_producer_sends_nothing_further() {
    // A client that disconnects after receiving 1 of 3 items: the producer
    // observes the cancellation and performs no further sends.
    let mut p = EventProducer::new(EventConfigRequest { count: 3, delay: 10 });
    assert_eq!(p.step().unwrap().content, "message: 1");
    p.observe_cancellation();
    assert!(p.step().is_none());
    assert!(p.step().is_none());
}

#[test]
fn large_event_numbers_render_in_decimal() {
    let mut p = EventProducer::new(EventConfigRequest { count: 1_000, delay: 0 });
    let mut last = String::new();
    for _ in 0..1_000 {
        last = p.step().unwrap().content;
    }
    assert_eq!(last, "message: 1000");
    assert!(p.step().is_none());
}
