use openai_rs_types::json::{JsonObject, JsonValue};
use openai_rs_types::realtime::UnknownRealtimeObject;
use openai_rs_types::realtime_server::{
    RealtimeServerEvent, RealtimeServerEventError, RealtimeServerEventInputAudioBufferCleared,
    RealtimeServerEventKind, RealtimeServerEventResponseTextDone, RealtimeTranscriptionUsageKind,
    RealtimeTranslationServerEvent, RealtimeTranslationServerEventKind,
    RealtimeTranslationServerEventSessionClosed, REALTIME_SERVER_EVENT_BRANCHES,
    REALTIME_SERVER_EVENT_TAGS, REALTIME_TRANSLATION_SERVER_EVENT_BRANCHES,
    REALTIME_TRANSLATION_SERVER_EVENT_TAGS,
};
use openai_rs_types::realtime_events::{
    RealtimeClientEventKind, REALTIME_CLIENT_EVENT_BRANCHES, REALTIME_CLIENT_EVENT_TAGS,
    REALTIME_TRANSLATION_CLIENT_EVENT_BRANCHES, REALTIME_TRANSLATION_CLIENT_EVENT_TAGS,
};
use openai_rs_types::realtime_items::RealtimeErrorDetails;
use openai_rs_types::transcriptions::{
    TranscriptionStreamEvent, TranscriptionStreamEventKind, TranscriptionTextDeltaEvent,
    TranscriptionTextDoneEvent, TranscriptionUsageKind,
};
use openai_rs_types::wire::Omittable;


fn future_object(tag: &str) -> UnknownRealtimeObject {
    let mut object = JsonObject::new();
    object.insert("type".to_owned(), JsonValue::String(tag.to_owned()));
    UnknownRealtimeObject::from_value(JsonValue::Object(object)).expect("tagged object")
}

#[test]
fn every_server_tag_selects_a_known_kind() {
    assert_eq!(REALTIME_SERVER_EVENT_TAGS.len(), 46);
    assert_eq!(REALTIME_SERVER_EVENT_BRANCHES.len(), 46);
    for tag in REALTIME_SERVER_EVENT_TAGS {
        assert_ne!(RealtimeServerEventKind::from_tag(tag), RealtimeServerEventKind::Unknown, "{tag}");
    }
    assert_eq!(RealtimeServerEventKind::from_tag("response.done"), RealtimeServerEventKind::ResponseDone);
    assert_eq!(RealtimeServerEventKind::from_tag("future.realtime.event"), RealtimeServerEventKind::Unknown);
}

#[test]
fn server_events_report_their_wire_tag() {
    let cleared = RealtimeServerEvent::InputAudioBufferCleared(Box::new(RealtimeServerEventInputAudioBufferCleared {
        event_id: "event_1".to_owned(),
        extra: JsonObject::new(),
    }));
    assert_eq!(cleared.event_type(), "input_audio_buffer.cleared");
    let done = RealtimeServerEvent::ResponseTextDone(Box::new(RealtimeServerEventResponseTextDone {
        event_id: "event_2".to_owned(),
        response_id: "resp_1".to_owned(),
        item_id: "item_1".to_owned(),
        output_index: 0,
        content_index: 0,
        text: "hello".to_owned(),
        extra: JsonObject::new(),
    }));
    assert_eq!(done.event_type(), "response.output_text.done");
    let future = RealtimeServerEvent::Unknown(future_object("future.realtime.event"));
    assert_eq!(future.event_type(), "future.realtime.event");
}

#[test]
fn translation_server_events_route_by_tag() {
    assert_eq!(RealtimeTranslationServerEventKind::from_tag("session.closed"), RealtimeTranslationServerEventKind::SessionClosed);
    assert_eq!(RealtimeTranslationServerEventKind::from_tag("error"), RealtimeTranslationServerEventKind::Error);
    assert_eq!(RealtimeTranslationServerEventKind::from_tag("response.done"), RealtimeTranslationServerEventKind::Unknown);
    let closed = RealtimeTranslationServerEvent::SessionClosed(Box::new(RealtimeTranslationServerEventSessionClosed {
        event_id: "event_1".to_owned(),
        extra: JsonObject::new(),
    }));
    assert_eq!(closed.event_type(), "session.closed");
    let error = RealtimeTranslationServerEvent::Error(Box::new(RealtimeServerEventError {
        event_id: "event_2".to_owned(),
        error: RealtimeErrorDetails {
            kind: "invalid_request_error".to_owned(),
            code: Omittable::Omitted,
            message: "bad".to_owned(),
            param: Omittable::Omitted,
            event_id: Omittable::Omitted,
            headers: Omittable::Omitted,
            extra: JsonObject::new(),
        },
        extra: JsonObject::new(),
    }));
    assert_eq!(error.event_type(), "error");
}

#[test]
fn usage_kinds_route_by_tag() {
    assert_eq!(RealtimeTranscriptionUsageKind::from_tag("tokens"), RealtimeTranscriptionUsageKind::Tokens);
    assert_eq!(RealtimeTranscriptionUsageKind::from_tag("duration"), RealtimeTranscriptionUsageKind::Duration);
    assert_eq!(RealtimeTranscriptionUsageKind::from_tag("minutes"), RealtimeTranscriptionUsageKind::Unknown);
    assert_eq!(TranscriptionUsageKind::from_tag("duration"), TranscriptionUsageKind::Duration);
    assert_eq!(TranscriptionUsageKind::from_tag("tokens"), TranscriptionUsageKind::Tokens);
    assert_eq!(TranscriptionUsageKind::from_tag("credits"), TranscriptionUsageKind::Unknown);
}

#[test]
fn only_the_done_event_ends_a_transcription_stream() {
    let delta = TranscriptionStreamEvent::TextDelta(TranscriptionTextDeltaEvent {
        delta: "hel".to_owned(),
        logprobs: Omittable::Omitted,
        segment_id: Omittable::Omitted,
        extra: JsonObject::new(),
    });
    assert!(!delta.is_terminal());
    let done = TranscriptionStreamEvent::TextDone(TranscriptionTextDoneEvent {
        text: "hello".to_owned(),
        languages: Omittable::Omitted,
        logprobs: Omittable::Omitted,
        usage: Omittable::Omitted,
        extra: JsonObject::new(),
    });
    assert!(done.is_terminal());
    assert!(!TranscriptionStreamEvent::Unknown(JsonObject::new()).is_terminal());
    assert_eq!(TranscriptionStreamEventKind::from_tag("transcript.text.segment"), TranscriptionStreamEventKind::TextSegment);
    assert_eq!(TranscriptionStreamEventKind::from_tag("transcript.text.done"), TranscriptionStreamEventKind::TextDone);
    assert_eq!(TranscriptionStreamEventKind::from_tag("transcript.text.later"), TranscriptionStreamEventKind::Unknown);
}

#[test]
fn every_client_and_translation_tag_selects_a_known_kind() {
    assert_eq!(REALTIME_CLIENT_EVENT_TAGS.len(), 11);
    assert_eq!(REALTIME_CLIENT_EVENT_BRANCHES.len(), 11);
    for tag in REALTIME_CLIENT_EVENT_TAGS {
        assert_ne!(RealtimeClientEventKind::from_tag(tag), RealtimeClientEventKind::Unknown, "{tag}");
    }
    assert_eq!(REALTIME_TRANSLATION_CLIENT_EVENT_TAGS.len(), 3);
    assert_eq!(REALTIME_TRANSLATION_CLIENT_EVENT_BRANCHES.len(), 3);
    assert_eq!(REALTIME_TRANSLATION_SERVER_EVENT_TAGS.len(), 7);
    assert_eq!(REALTIME_TRANSLATION_SERVER_EVENT_BRANCHES.len(), 7);
    for tag in REALTIME_TRANSLATION_SERVER_EVENT_TAGS {
        assert_ne!(
            RealtimeTranslationServerEventKind::from_tag(tag),
            RealtimeTranslationServerEventKind::Unknown,
            "{tag}"
        );
    }
}

#[test]
fn events_convert_into_their_unions() {
    let event: RealtimeServerEvent = RealtimeServerEventInputAudioBufferCleared {
        event_id: "event_1".to_owned(),
        extra: JsonObject::new(),
    }
    .into();
    assert_eq!(event.event_type(), "input_audio_buffer.cleared");
    let closed: RealtimeTranslationServerEvent = RealtimeTranslationServerEventSessionClosed {
        event_id: "event_2".to_owned(),
        extra: JsonObject::new(),
    }
    .into();
    assert_eq!(closed.event_type(), "session.closed");
}
