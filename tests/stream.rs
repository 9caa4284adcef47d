use llama_cpp_types::inference::shape_stream;
use llama_cpp_types::{EngineEvent, InferenceResult, InferenceResultType, ResultStream};

fn token(t: &str, completed: bool) -> EngineEvent {
    EngineEvent::Token { text: t.to_string(), completed }
}

fn is_data(r: &InferenceResult, t: &str, completed: bool) -> bool {
    matches!(r, InferenceResult::Data(tok) if tok.token == t && tok.completed == completed)
}

#[test]
fn stream_failure_mid_stream_ends_with_one_error() {
    let events = vec![
        token("Hel", false),
        token("lo", false),
        EngineEvent::Failed { message: "decode failed".to_string() },
        token("!", false),
        EngineEvent::Finished,
    ];
    let out = shape_stream(&events);
    assert_eq!(out.len(), 3);
    assert!(is_data(&out[0], "Hel", false));
    assert!(is_data(&out[1], "lo", false));
    assert!(matches!(&out[2], InferenceResult::Error(m) if m == "decode failed"));
}

#[test]
fn stream_failure_before_any_token() {
    let events = vec![EngineEvent::Failed { message: "no model".to_string() }, token("x", false)];
    let out = shape_stream(&events);
    assert_eq!(out.len(), 1);
    assert_eq!(out[0].result_type(), InferenceResultType::Error);
}

#[test]
fn stream_normal_completion_ends_with_one_end() {
    let events = vec![token("a", false), token("b", true), EngineEvent::Finished, EngineEvent::Finished];
    let out = shape_stream(&events);
    assert_eq!(out.len(), 3);
    assert!(is_data(&out[0], "a", false));
    assert!(is_data(&out[1], "b", true));
    assert_eq!(out[2].result_type(), InferenceResultType::End);
}

#[test]
fn stream_without_terminal_forwards_every_token() {
    let events = vec![token("a", false), token("b", false)];
    let out = shape_stream(&events);
    assert_eq!(out.len(), 2);
    assert!(out.iter().all(|r| r.result_type() == InferenceResultType::Data));
    assert!(shape_stream(&Vec::new()).is_empty());
}

#[test]
fn result_stream_closes_after_end() {
    let mut s = ResultStream::new();
    assert!(!s.closed);
    assert!(matches!(s.push(token("t", false)), Some(InferenceResult::Data(_))));
    assert!(!s.closed);
    assert!(matches!(s.push(EngineEvent::Finished), Some(InferenceResult::End)));
    assert!(s.closed);
    assert!(s.push(token("late", false)).is_none());
    assert!(s.push(EngineEvent::Failed { message: "late".to_string() }).is_none());
}

#[test]
fn result_from_event_keeps_message() {
    let r = InferenceResult::from_event(EngineEvent::Failed { message: "out of memory".to_string() });
    assert!(matches!(&r, InferenceResult::Error(m) if m == "out of memory"));
}
