//! Streamed delivery: cancellation behaviour and the event wire format.

use capi_core::sse::StreamProgress;
use capi_core::sse::chunk_json;
use capi_core::sse::json_escape;
use capi_core::sse::sse_event;
use capi_core::sse::stream_chunk_event;
use capi_core::sse::stream_final_event;
use capi_core::api::completion_id;
use capi_core::api::make_chunk;

#[test]
fn consumer_declining_fifth_chunk_stops_delivery() {
    let mut p = StreamProgress::new();
    let mut engine_continues = true;
    let mut produced = 0u32;
    // The engine would produce ten chunks; the consumer declines the fifth.
    for i in 1..=10u32 {
        if !engine_continues {
            break;
        }
        produced += 1;
        let consumer_wants_more = i != 5;
        engine_continues = p.on_chunk(consumer_wants_more);
    }
    assert_eq!(produced, 5);
    assert_eq!(p.delivered, 5);
    assert!(p.stopped);
    // Anything the engine still pushes before honouring the stop is not
    // delivered.
    assert!(!p.on_chunk(true));
    assert_eq!(p.delivered, 5);
}

#[test]
fn first_chunk_carries_the_role() {
    let mut p = StreamProgress::new();
    assert!(p.next_is_first());
    p.on_chunk(true);
    assert!(!p.next_is_first());
}

#[test]
fn chunk_json_first_and_final_events() {
    let first = chunk_json("chatcmpl-1", 1700000000, "phi-3", true, Some("Hel"), false);
    assert_eq!(
        first,
        "{\"id\":\"chatcmpl-1\",\"object\":\"chat.completion.chunk\",\"created\":1700000000,\
         \"model\":\"phi-3\",\"choices\":[{\"index\":0,\"delta\":{\"role\":\"assistant\",\
         \"content\":\"Hel\"},\"finish_reason\":null}]}"
    );
    let middle = chunk_json("chatcmpl-1", 1700000000, "phi-3", false, Some("lo"), false);
    assert!(middle.contains("\"role\":null"));
    assert!(middle.contains("\"content\":\"lo\""));
    let last = chunk_json("chatcmpl-1", 1700000000, "phi-3", false, None, true);
    assert!(last.contains("\"content\":null"));
    assert!(last.ends_with("\"finish_reason\":\"stop\"}]}"));
}

#[test]
fn json_escaping() {
    assert_eq!(json_escape("plain"), "plain");
    assert_eq!(json_escape("a\"b\\c"), "a\\\"b\\\\c");
    assert_eq!(json_escape("line\nbreak\ttab\rret"), "line\\nbreak\\ttab\\rret");
    assert_eq!(json_escape("\u{08}\u{0c}"), "\\b\\f");
    assert_eq!(json_escape("\u{01}\u{1f}"), "\\u0001\\u001f");
    assert_eq!(json_escape("unicode \u{4f60}\u{597d}"), "unicode \u{4f60}\u{597d}");
}

#[test]
fn escaped_content_round_trips_through_the_chunk() {
    let j = chunk_json("id", 0, "m", false, Some("say \"hi\"\n"), false);
    assert!(j.contains("\"content\":\"say \\\"hi\\\"\\n\""));
}

#[test]
fn sse_event_framing() {
    assert_eq!(sse_event("{\"a\":1}"), "data: {\"a\":1}\n\n");
}

#[test]
fn full_events_track_progress() {
    let mut p = StreamProgress::new();
    let first = stream_chunk_event("id", 7, "m", &p, "He");
    assert!(first.starts_with("data: {\"id\":\"id\""));
    assert!(first.contains("\"role\":\"assistant\""));
    assert!(first.ends_with("\n\n"));
    p.on_chunk(true);
    let second = stream_chunk_event("id", 7, "m", &p, "llo");
    assert!(second.contains("\"role\":null"));
    let last = stream_final_event("id", 7, "m");
    assert!(last.contains("\"finish_reason\":\"stop\""));
    assert!(last.contains("\"content\":null"));
}

#[test]
fn chunk_values_match_the_wire_shape() {
    assert_eq!(completion_id("123e4567"), "chatcmpl-123e4567");
    let chunk = make_chunk("c1", 9, "phi", true, Some("hi".to_string()), false);
    assert_eq!(chunk.object, "chat.completion.chunk");
    assert_eq!(chunk.choices.len(), 1);
    assert_eq!(chunk.choices[0].delta.role.as_deref(), Some("assistant"));
    assert_eq!(chunk.choices[0].delta.content.as_deref(), Some("hi"));
    assert_eq!(chunk.choices[0].finish_reason, None);
    let done = make_chunk("c1", 9, "phi", false, None, true);
    assert_eq!(done.choices[0].finish_reason.as_deref(), Some("stop"));
    assert_eq!(done.choices[0].delta.role, None);
}
