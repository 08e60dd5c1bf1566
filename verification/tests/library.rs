use openai_rs_types::json::{JsonObject, JsonValue};
use openai_rs_types::realtime::RealtimeAudio;
use openai_rs_types::realtime_calls::{
    RealtimeTranslationAudio, RealtimeTranslationAudioInput, RealtimeTranslationAudioOutput,
    RealtimeTranslationNoiseReduction, RealtimeTranslationSessionCreateRequest,
    RealtimeTranslationSessionUpdateRequest, RealtimeTranslationTranscription,
};
use openai_rs_types::realtime_enums::{RealtimeNoiseReductionType, RealtimeToolChoiceMode};
use openai_rs_types::realtime_events::{
    RealtimeClientEventConversationItemCreate, RealtimeClientEventConversationItemTruncate,
    RealtimeClientEventInputAudioBufferAppend, RealtimeTranslationClientEvent,
    RealtimeTranslationClientEventSessionUpdate,
};
use openai_rs_types::realtime_items::{
    RealtimeConversationItem, RealtimeConversationItemMessageUser, RealtimeMcpToolChoice,
    RealtimeUserContentPart,
};
use openai_rs_types::secret::{Secret, WireSecret};
use openai_rs_types::structured::{StructuredError, ToolExecutionError};
use openai_rs_types::tool_names::{tool_call_output, ToolNames};
use openai_rs_types::wire::{Nullable, Omittable};

#[test]
fn tool_registry_names_are_valid_and_registered_once() {
    let mut names = ToolNames::new();
    names.register("get_weather").expect("register tool");
    assert!(matches!(
        names.register("get_weather"),
        Err(StructuredError::InvalidName(message)) if message == "duplicate tool registration: `get_weather`"
    ));
    assert!(matches!(names.register("bad name"), Err(StructuredError::InvalidName(n)) if n == "bad name"));
    assert_eq!(names.len(), 1);
    assert_eq!(names.lookup("get_weather").expect("registered"), 0);
    assert!(matches!(
        names.lookup("unknown"),
        Err(StructuredError::InvalidName(message)) if message == "unknown tool `unknown`"
    ));
}

#[test]
fn secrets_are_exposed_only_on_purpose() {
    let secret = Secret::new("sk-private".to_owned());
    assert!(!format!("{secret:?}").contains("sk-private"));
    assert_eq!(secret.with_exposed(|s| s.len()), 10);
    assert!(!secret.is_empty());
    let wire = WireSecret::new("ek_test_secret".to_owned());
    assert!(!format!("{wire:?}").contains("ek_test_secret"));
    assert_eq!(wire.duplicate().with_exposed(|s| s.to_owned()), "ek_test_secret");
    assert!(WireSecret::new(String::new()).is_empty());
}

#[test]
fn json_text_is_compact_and_ordered() {
    let mut object = JsonObject::new();
    object.insert("z".to_owned(), JsonValue::Number("1".to_owned()));
    object.insert("a".to_owned(), JsonValue::String("q\"uote\n".to_owned()));
    object.insert("m".to_owned(), JsonValue::Array(vec![JsonValue::Null, JsonValue::Bool(true)]));
    let mut out = String::new();
    JsonValue::Object(object).write_text(&mut out);
    assert_eq!(out, r#"{"a":"q\"uote\n","m":[null,true],"z":1}"#);
    let mut replaced = JsonObject::new();
    replaced.insert("k".to_owned(), JsonValue::Null);
    replaced.insert("k".to_owned(), JsonValue::Bool(false));
    assert_eq!(replaced.len(), 1);
    assert!(matches!(replaced.get("k"), Some(JsonValue::Bool(false))));
    replaced.remove("k");
    assert!(replaced.is_empty());
}

#[test]
fn translation_session_preserves_nullability_and_extras() {
    let input = RealtimeTranslationAudioInput::default()
        .with_transcription(RealtimeTranslationTranscription::new("gpt-realtime-whisper"))
        .with_noise_reduction_null();
    assert!(matches!(&input.transcription, Omittable::Value(Nullable::Value(t)) if t.model == "gpt-realtime-whisper"));
    assert!(matches!(input.noise_reduction, Omittable::Value(Nullable::Null)));
    let input = input.clear_transcription().with_noise_reduction(RealtimeTranslationNoiseReduction::new(
        RealtimeNoiseReductionType::NearField,
    ));
    assert!(input.transcription.is_omitted());
    let audio = RealtimeTranslationAudio::default()
        .with_input(input)
        .with_output(RealtimeTranslationAudioOutput::new("es"));
    let request = RealtimeTranslationSessionCreateRequest::new("gpt-realtime-translate").with_audio(audio);
    assert_eq!(request.model, "gpt-realtime-translate");
    assert!(request.extra_fields().is_empty());
    let update = RealtimeTranslationSessionUpdateRequest::new()
        .with_audio(RealtimeTranslationAudio::default().with_output(RealtimeTranslationAudioOutput::new("fr")));
    let event = RealtimeTranslationClientEvent::SessionUpdate(RealtimeTranslationClientEventSessionUpdate::new(update));
    assert_eq!(event.event_type(), "session.update");
    assert_eq!(event.validate(), Ok(()));
}

#[test]
fn client_event_builders_keep_their_fields() {
    let item = RealtimeConversationItem::UserMessage(RealtimeConversationItemMessageUser::new(vec![
        RealtimeUserContentPart::text("hello"),
        RealtimeUserContentPart::audio(vec![1, 2, 3]),
        RealtimeUserContentPart::image("data:image/png;base64,AA=="),
    ]));
    let event = RealtimeClientEventConversationItemCreate::new(item).after("item_0").with_event_id("event_1");
    assert!(matches!(&event.previous_item_id, Omittable::Value(p) if p == "item_0"));
    assert!(matches!(&event.event_id, Omittable::Value(e) if e == "event_1"));
    let RealtimeConversationItem::UserMessage(message) = &event.item else { panic!("user message") };
    assert_eq!(message.content.len(), 3);
    assert!(matches!(&message.content[1].audio, Omittable::Value(a) if a.as_bytes() == [1, 2, 3]));
    let truncate = RealtimeClientEventConversationItemTruncate::new("item_1", 0, 1200);
    assert_eq!(truncate.audio_end_ms, 1200);
    let append = RealtimeClientEventInputAudioBufferAppend::new(vec![1, 2, 3]);
    assert_eq!(append.audio.to_base64(), "AQID");
    let choice = RealtimeMcpToolChoice::new("server").name("tool");
    assert!(matches!(&choice.name, Omittable::Value(Nullable::Value(n)) if n == "tool"));
    assert!(matches!(RealtimeToolChoiceMode::from_raw("none"), RealtimeToolChoiceMode::NoTool));
    assert_eq!(RealtimeAudio::default().byte_len(), 0);
}

#[test]
fn tool_failures_are_answered_in_band() {
    assert_eq!(tool_call_output(Ok("{\"temp\":21}".to_owned())), "{\"temp\":21}");
    let failed = tool_call_output(Err(ToolExecutionError::custom("no \"city\"\n")));
    let mut expected = serde_json::Map::new();
    expected.insert(
        "error".to_owned(),
        serde_json::Value::String("tool execution failed: no \"city\"\n".to_owned()),
    );
    assert_eq!(failed, serde_json::to_string(&serde_json::Value::Object(expected)).expect("encode"));
    assert_eq!(
        tool_call_output(Err(ToolExecutionError::InvalidArguments("missing field `city`".to_owned()))),
        "{\"error\":\"invalid tool arguments: missing field `city`\"}"
    );
}

#[test]
fn tool_registry_dispatch_decisions_for_success_and_error() {
    let mut names = ToolNames::new();
    names.register("get_weather").expect("register tool");
    assert!(matches!(names.register("get_weather"), Err(StructuredError::InvalidName(_))));
    assert_eq!(names.len(), 1);
    assert_eq!(names.lookup("get_weather").expect("registered"), 0);
    assert_eq!(tool_call_output(Ok("{\"temperature\":22.5}".to_owned())), "{\"temperature\":22.5}");
    assert_eq!(
        tool_call_output(Err(ToolExecutionError::custom("city not found"))),
        "{\"error\":\"tool execution failed: city not found\"}"
    );
}

#[test]
fn clearing_a_transcription_forgets_what_was_set() {
    let base = RealtimeTranslationAudioInput::default().with_noise_reduction_null();
    let set_then_cleared = base
        .clone()
        .with_transcription(RealtimeTranslationTranscription::new("gpt-realtime-whisper"))
        .clear_transcription();
    let cleared = base.clone().clear_transcription();
    assert!(set_then_cleared.transcription.is_omitted());
    assert!(cleared.transcription.is_omitted());
    assert!(matches!(set_then_cleared.noise_reduction, Omittable::Value(Nullable::Null)));
    assert!(matches!(cleared.noise_reduction, Omittable::Value(Nullable::Null)));
    assert_eq!(set_then_cleared.extra.len(), cleared.extra.len());
}
