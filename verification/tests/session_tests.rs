use chat_proxy::convo::Status;
use chat_proxy::provider::{OpenAIChunkChoice, OpenAICompletionChunk, OpenAIDelta};
use chat_proxy::session::{collect_completion, drive_stream, StreamOutcome, StreamTee};

fn text_chunk(id: &str, text: &str) -> OpenAICompletionChunk {
    OpenAICompletionChunk {
        id: id.to_string(),
        object: "chat.completion.chunk".to_string(),
        created: 1700000000,
        model: "gpt-4o".to_string(),
        choices: vec![OpenAIChunkChoice {
            delta: OpenAIDelta { role: None, content: Some(text.to_string()) },
            index: 0,
            finish_reason: None,
        }],
    }
}

fn finish_chunk(id: &str, reason: &str) -> OpenAICompletionChunk {
    OpenAICompletionChunk {
        id: id.to_string(),
        object: "chat.completion.chunk".to_string(),
        created: 1700000000,
        model: "gpt-4o".to_string(),
        choices: vec![OpenAIChunkChoice {
            delta: OpenAIDelta { role: None, content: None },
            index: 0,
            finish_reason: Some(reason.to_string()),
        }],
    }
}

#[test]
fn outbound_preserves_order_and_accumulator_concatenates() {
    let frames = vec![
        Some(text_chunk("c1", "Hel")),
        Some(text_chunk("c2", "lo, ")),
        Some(text_chunk("c3", "world")),
        Some(finish_chunk("c4", "stop")),
    ];
    let (outs, rec) = drive_stream(&frames, 4, StreamOutcome::Completed);
    assert_eq!(outs.len(), 4);
    assert_eq!(outs[0].id, "c1");
    assert_eq!(outs[1].id, "c2");
    assert_eq!(outs[2].id, "c3");
    assert_eq!(outs[3].id, "c4");
    assert_eq!(outs[0].object, "chat.completion.chunk");
    assert_eq!(outs[0].choices[0].delta.content.as_deref(), Some("Hel"));
    assert_eq!(outs[0].choices[0].delta.role, "assistant");
    assert_eq!(rec.content, "Hello, world");
    assert_eq!(rec.status, Status::Done);
    assert_eq!(rec.finish_reason.as_deref(), Some("stop"));
    assert_eq!(rec.error_message, None);
    assert_eq!(rec.completion_id.as_deref(), Some("c4"));
    assert_eq!(rec.model.as_deref(), Some("gpt-4o"));
}

#[test]
fn malformed_frame_is_skipped_and_order_kept() {
    let frames = vec![
        Some(text_chunk("c1", "a")),
        None, // a frame that failed to parse
        Some(text_chunk("c3", "b")),
    ];
    let (outs, rec) = drive_stream(&frames, 3, StreamOutcome::Completed);
    assert_eq!(outs.len(), 2);
    assert_eq!(outs[0].id, "c1");
    assert_eq!(outs[1].id, "c3");
    assert_eq!(rec.content, "ab");
    assert_eq!(rec.status, Status::Done);
}

#[test]
fn disconnect_persists_partial_content_as_stopped() {
    let frames = vec![
        Some(text_chunk("c1", "one ")),
        Some(text_chunk("c2", "two ")),
        Some(text_chunk("c3", "three")),
    ];
    // The client disconnected after receiving two of three chunks.
    let (outs, rec) = drive_stream(&frames, 2, StreamOutcome::Disconnected);
    assert_eq!(outs.len(), 2);
    assert_eq!(rec.content, "one two ");
    assert_eq!(rec.status, Status::Stopped);
    assert_eq!(rec.error_message, None);
}

#[test]
fn upstream_failure_persists_partial_content_as_error_with_cause() {
    let frames = vec![Some(text_chunk("c1", "par")), Some(text_chunk("c2", "tial"))];
    let (_outs, rec) = drive_stream(&frames, 2, StreamOutcome::Failed("connection reset".to_string()));
    assert_eq!(rec.content, "partial");
    assert_eq!(rec.status, Status::Error);
    assert_eq!(rec.error_message.as_deref(), Some("connection reset"));
}

#[test]
fn upstream_failure_with_empty_detail_still_records_a_cause() {
    let frames = vec![Some(text_chunk("c1", "x"))];
    let (_outs, rec) = drive_stream(&frames, 1, StreamOutcome::Failed(String::new()));
    assert_eq!(rec.status, Status::Error);
    let cause = rec.error_message.unwrap();
    assert!(!cause.is_empty());
    assert_eq!(cause, "upstream stream error");
}

#[test]
fn finalize_fires_exactly_once() {
    let mut tee = StreamTee::new();
    tee.on_frame(Some(text_chunk("c1", "hi")));
    let first = tee.finalize(StreamOutcome::Disconnected);
    assert!(first.is_some());
    assert_eq!(first.unwrap().status, Status::Stopped);
    let second = tee.finalize(StreamOutcome::Completed);
    assert!(second.is_none(), "a second finalization must persist nothing");
    let third = tee.finalize(StreamOutcome::Failed("late".to_string()));
    assert!(third.is_none());
}

#[test]
fn tee_applies_each_chunk_to_both_destinations() {
    let mut tee = StreamTee::new();
    let out = tee.on_frame(Some(text_chunk("c1", "Hello"))).unwrap();
    assert_eq!(out.choices[0].delta.content.as_deref(), Some("Hello"));
    let out = tee.on_frame(Some(text_chunk("c2", "!"))).unwrap();
    assert_eq!(out.id, "c2");
    assert!(tee.on_frame(None).is_none());
    let rec = tee.finalize(StreamOutcome::Completed).unwrap();
    assert_eq!(rec.content, "Hello!");
}

#[test]
fn non_streaming_collects_everything_before_responding() {
    let frames = vec![
        Some(text_chunk("c1", "The ")),
        Some(text_chunk("c2", "answer")),
        Some(finish_chunk("c3", "stop")),
    ];
    let (payload, rec) = collect_completion(&frames, "cmpl-fallback".to_string(), "m-fallback".to_string(), 1700000123);
    assert_eq!(payload.object, "chat.completion");
    assert_eq!(payload.created, 1700000123);
    assert_eq!(payload.id, "c3");
    assert_eq!(payload.model, "gpt-4o");
    assert_eq!(payload.choices.len(), 1);
    assert_eq!(payload.choices[0].index, 0);
    assert_eq!(payload.choices[0].message.role, "assistant");
    assert_eq!(payload.choices[0].message.content.as_deref(), Some("The answer"));
    assert_eq!(payload.choices[0].finish_reason.as_deref(), Some("stop"));
    // Persistence happens exactly once, with the same content, before the
    // response is sent.
    assert_eq!(rec.status, Status::Done);
    assert_eq!(rec.content, "The answer");
}

#[test]
fn non_streaming_empty_stream_uses_fallbacks() {
    let frames: Vec<Option<OpenAICompletionChunk>> = vec![None];
    let (payload, rec) = collect_completion(&frames, "cmpl-9".to_string(), "gpt-4o".to_string(), 7);
    assert_eq!(payload.id, "cmpl-9");
    assert_eq!(payload.model, "gpt-4o");
    assert_eq!(payload.choices[0].message.content.as_deref(), Some(""));
    assert_eq!(payload.choices[0].finish_reason, None);
    assert_eq!(rec.content, "");
}
