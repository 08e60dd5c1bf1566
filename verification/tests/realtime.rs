use openai_rs_types::json::{JsonObject, JsonValue};
use openai_rs_types::media::Base64DecodeError;
use openai_rs_types::realtime::{
    object_discriminator, validate_client_secret_limits, validate_omittable_event_id,
    validate_realtime_audio_format, validate_realtime_audio_input, validate_session_limits,
    CreateRealtimeSessionConstraintError, RealtimeAudio, RealtimeAudioFormat,
    RealtimeAudioInputConfig, RealtimeAudioTranscription, RealtimePcmAudioFormat,
    RealtimePcmRate, RealtimePcmuAudioFormat, RealtimeServerVad, RealtimeTurnDetection,
    UnknownRealtimeObject, UnknownRealtimeObjectError, MAX_REALTIME_CLIENT_SECRET_SECONDS,
    MAX_REALTIME_EVENT_ID_CHARS, MIN_REALTIME_CLIENT_SECRET_SECONDS, REALTIME_PCM_SAMPLE_RATE,
};
use openai_rs_types::realtime_calls::{
    RealtimeTranslationClientSecretCreateRequest, RealtimeTranslationClientSecretExpiration,
    RealtimeTranslationSessionCreateRequest, RealtimeCallRejectRequest, RealtimeSdp,
};
use openai_rs_types::realtime_enums::{RealtimeReasoningEffort, RealtimeTranscriptionDelay};
use openai_rs_types::realtime_events::{
    validate_client_event_limits, RealtimeClientEvent, RealtimeClientEventKind,
    RealtimeClientEventOutputAudioBufferClear, RealtimeClientEventResponseCancel,
    RealtimeClientEventResponseCreate, RealtimeClientEventSessionUpdate, RealtimeTranslationClientEvent,
    RealtimeTranslationClientEventSessionClose,
};
use openai_rs_types::realtime_items::{conversation_item_kind, RealtimeConversationItemKind};
use openai_rs_types::wire::{Nullable, Omittable};
use serde_json::Value;

fn lib_value(value: &Value) -> JsonValue {
    match value {
        Value::Null => JsonValue::Null,
        Value::Bool(b) => JsonValue::Bool(*b),
        Value::Number(n) => JsonValue::Number(n.to_string()),
        Value::String(s) => JsonValue::String(s.clone()),
        Value::Array(items) => JsonValue::Array(items.iter().map(lib_value).collect()),
        Value::Object(members) => {
            let mut object = JsonObject::new();
            for (key, member) in members {
                object.insert(key.clone(), lib_value(member));
            }
            JsonValue::Object(object)
        }
    }
}

fn parse(text: &str) -> JsonValue {
    lib_value(&serde_json::from_str(text).expect("fixture"))
}

#[test]
fn base64_audio_is_typed_and_debug_does_not_dump_bytes() {
    let audio = RealtimeAudio::from_base64("AQID").expect("valid base64 audio decodes");
    assert_eq!(audio.as_bytes(), &[1, 2, 3]);
    assert_eq!(audio.to_base64(), "AQID");
    assert_eq!(audio.byte_len(), 3);
    assert!(RealtimeAudio::from_base64("%%%invalid").is_err());
}

#[test]
fn realtime_audio_reads_back_what_it_wrote() {
    for bytes in [vec![], vec![0u8], vec![255, 0, 128], (0..=255u8).collect::<Vec<u8>>()] {
        let audio = RealtimeAudio::new(bytes.clone());
        let back = RealtimeAudio::from_base64(&audio.to_base64()).expect("round trip");
        assert_eq!(back.into_bytes(), bytes);
    }
    assert!(matches!(
        RealtimeAudio::from_base64("AQI"),
        Err(Base64DecodeError::InvalidPadding) | Err(Base64DecodeError::InvalidLength(_))
    ));
}

#[test]
fn unknown_event_retains_its_complete_object() {
    let fixture = parse(
        r#"{"type": "future.realtime.event", "event_id": "event_future",
            "nested": {"secret": false}, "array": [1, 2, 3]}"#,
    );
    let unknown = UnknownRealtimeObject::from_value(fixture).expect("unknown event is kept");
    assert_eq!(unknown.discriminator(), "future.realtime.event");
    assert_eq!(unknown.field_count(), 4);
    let back = unknown.into_value();
    let JsonValue::Object(object) = back else { panic!("an object comes back") };
    assert!(object.contains_key("nested"));
    assert!(object.contains_key("array"));
    assert!(object.contains_key("type"));
}

#[test]
fn tagged_objects_need_a_string_type() {
    assert_eq!(
        object_discriminator(&parse(r#"{"type": 1}"#)),
        Err("tagged realtime object field `type` must be a string")
    );
    assert_eq!(
        object_discriminator(&parse(r#"{"kind": "x"}"#)),
        Err("tagged realtime object is missing string field `type`")
    );
    assert_eq!(
        object_discriminator(&parse(r#"["type"]"#)),
        Err("tagged realtime value must be an object")
    );
    assert!(matches!(
        UnknownRealtimeObject::from_value(parse("3")),
        Err(UnknownRealtimeObjectError::Invalid("tagged realtime value must be an object"))
    ));
}

#[test]
fn conversation_item_uses_type_then_role_and_rejects_known_malformed_payloads() {
    let user = parse(r#"{"type": "message", "role": "user", "content": []}"#);
    assert_eq!(conversation_item_kind(&user), Ok(RealtimeConversationItemKind::UserMessage));
    assert_eq!(
        conversation_item_kind(&parse(r#"{"type": "message", "role": "system"}"#)),
        Ok(RealtimeConversationItemKind::SystemMessage)
    );
    assert_eq!(
        conversation_item_kind(&parse(r#"{"type": "message", "role": "assistant"}"#)),
        Ok(RealtimeConversationItemKind::AssistantMessage)
    );
    let future = parse(r#"{"type": "message", "role": "future", "content": []}"#);
    assert_eq!(conversation_item_kind(&future), Ok(RealtimeConversationItemKind::Unknown));
    assert_eq!(
        conversation_item_kind(&parse(r#"{"type": "message", "role": 7}"#)),
        Err("Realtime message is missing string `role`")
    );
    assert_eq!(
        conversation_item_kind(&parse(
            r#"{"type": "mcp_call", "id": "mcp_1", "server_label": "server", "name": "tool", "arguments": "{}"}"#
        )),
        Ok(RealtimeConversationItemKind::McpCall)
    );
    assert_eq!(
        conversation_item_kind(&parse(r#"{"type": "function_call_output"}"#)),
        Ok(RealtimeConversationItemKind::FunctionCallOutput)
    );
    assert_eq!(
        conversation_item_kind(&parse(r#"{"type": "future_item"}"#)),
        Ok(RealtimeConversationItemKind::Unknown)
    );
}

#[test]
fn translation_secret_lifetime_range_is_opt_in_validate() {
    let out_of_range = RealtimeTranslationClientSecretExpiration::new(9);
    assert_eq!(out_of_range.seconds(), Some(9));

    let session = || RealtimeTranslationSessionCreateRequest::new("gpt-realtime-translate");
    let rejected = |actual: i64| CreateRealtimeSessionConstraintError::ClientSecretExpiration {
        actual,
        minimum: MIN_REALTIME_CLIENT_SECRET_SECONDS,
        maximum: MAX_REALTIME_CLIENT_SECRET_SECONDS,
    };
    for seconds in [9_i64, 7_201, 100_000] {
        let request = RealtimeTranslationClientSecretCreateRequest::new(session())
            .with_expires_after(RealtimeTranslationClientSecretExpiration::new(seconds));
        assert_eq!(request.validate(), Err(rejected(seconds)));
    }
    for seconds in [MIN_REALTIME_CLIENT_SECRET_SECONDS, 600_i64, MAX_REALTIME_CLIENT_SECRET_SECONDS] {
        let request = RealtimeTranslationClientSecretCreateRequest::new(session())
            .with_expires_after(RealtimeTranslationClientSecretExpiration::new(seconds));
        assert_eq!(request.validate(), Ok(()));
    }
    assert_eq!(RealtimeTranslationClientSecretCreateRequest::new(session()).validate(), Ok(()));
    let cleared = RealtimeTranslationClientSecretCreateRequest::new(session())
        .with_expires_after(RealtimeTranslationClientSecretExpiration::new(1))
        .clear_expires_after();
    assert_eq!(cleared.validate(), Ok(()));
}

#[test]
fn realtime_client_event_validate_enforces_official_event_id() {
    assert_eq!(MAX_REALTIME_EVENT_ID_CHARS, 512);
    let ok_event = RealtimeClientEvent::ResponseCancel(Box::new(
        RealtimeClientEventResponseCancel::default().with_event_id(&"e".repeat(MAX_REALTIME_EVENT_ID_CHARS)),
    ));
    ok_event.validate(Ok(()), Ok(())).expect("official 512-character event_id is accepted");
    let over_event = RealtimeClientEvent::ResponseCancel(Box::new(
        RealtimeClientEventResponseCancel::default().with_event_id(&"e".repeat(MAX_REALTIME_EVENT_ID_CHARS + 1)),
    ));
    assert!(matches!(
        over_event.validate(Ok(()), Ok(())),
        Err(CreateRealtimeSessionConstraintError::EventId { actual: 513, maximum: 512 })
    ));
    let decoded_id = Omittable::Value("e".repeat(MAX_REALTIME_EVENT_ID_CHARS + 1));
    assert!(validate_client_event_limits(
        RealtimeClientEventKind::from_tag("response.cancel"),
        &decoded_id,
        Ok(())
    )
    .is_err());
    RealtimeClientEvent::OutputAudioBufferClear(Box::new(
        RealtimeClientEventOutputAudioBufferClear::default()
            .with_event_id(&"e".repeat(MAX_REALTIME_EVENT_ID_CHARS + 1)),
    ))
    .validate(Ok(()), Ok(()))
    .expect("output_audio_buffer.clear has no official event_id maxLength");
    RealtimeTranslationClientEvent::SessionClose(
        RealtimeTranslationClientEventSessionClose::default()
            .with_event_id(&"e".repeat(MAX_REALTIME_EVENT_ID_CHARS)),
    )
    .validate()
    .expect("translation event_id ceiling is accepted");
    assert!(matches!(
        RealtimeTranslationClientEvent::SessionClose(
            RealtimeTranslationClientEventSessionClose::default()
                .with_event_id(&"e".repeat(MAX_REALTIME_EVENT_ID_CHARS + 1)),
        )
        .validate(),
        Err(CreateRealtimeSessionConstraintError::EventId { actual: 513, .. })
    ));
}

#[test]
fn event_ids_are_counted_in_characters() {
    let wide = "é".repeat(MAX_REALTIME_EVENT_ID_CHARS);
    assert_eq!(validate_omittable_event_id(&Omittable::Value(wide)), Ok(()));
    assert_eq!(validate_omittable_event_id(&Omittable::Omitted), Ok(()));
}

#[test]
fn session_update_checks_event_id_before_the_session() {
    let too_long = Omittable::Value("e".repeat(513));
    let session_error = Err(CreateRealtimeSessionConstraintError::EmptyTranscriptionLanguages);
    assert!(matches!(
        validate_client_event_limits(RealtimeClientEventKind::SessionUpdate, &too_long, session_error.clone()),
        Err(CreateRealtimeSessionConstraintError::EventId { .. })
    ));
    assert_eq!(
        validate_client_event_limits(RealtimeClientEventKind::SessionUpdate, &Omittable::Omitted, session_error.clone()),
        session_error
    );
    assert_eq!(
        validate_client_event_limits(RealtimeClientEventKind::from_tag("future.event"), &too_long, Ok(())),
        Ok(())
    );
    assert_eq!(RealtimeClientEventKind::from_tag("session.update"), RealtimeClientEventKind::SessionUpdate);
}

#[test]
fn realtime_pcm_rate_pins_24000_and_keeps_unknown_rates_lossless() {
    assert_eq!(RealtimePcmRate::from_raw(REALTIME_PCM_SAMPLE_RATE), RealtimePcmRate::Rate24000);
    assert!(RealtimePcmRate::from_raw(24_000).is_known());
    assert_eq!(RealtimePcmRate::Rate24000.unknown_value(), None);
    let legacy = RealtimePcmRate::from_raw(16_000);
    assert!(!legacy.is_known());
    assert_eq!(legacy.unknown_value(), Some(16_000));
    assert_eq!(legacy.as_i64(), 16_000);
    assert_eq!(RealtimePcmRate::Rate24000.as_i64(), 24_000);
    assert_eq!(RealtimePcmAudioFormat::pcm24k().rate, Omittable::Value(RealtimePcmRate::Rate24000));
}

fn pcm(rate: i64) -> RealtimeAudioFormat {
    let mut format = RealtimePcmAudioFormat::pcm24k();
    format.rate = Omittable::Value(RealtimePcmRate::from_raw(rate));
    RealtimeAudioFormat::Pcm(format)
}

#[test]
fn realtime_pcm_rate_validate_rejects_non_pinned_rates() {
    let mut input = RealtimeAudioInputConfig::default();
    input.format = Omittable::Value(RealtimeAudioFormat::Pcm(RealtimePcmAudioFormat::pcm24k()));
    let output = RealtimeAudioFormat::Pcm(RealtimePcmAudioFormat::pcm24k());
    validate_session_limits(Some(&input), Some(&output), None, None, None)
        .expect("pinned 24kHz PCM rate is accepted");

    let mut input = RealtimeAudioInputConfig::default();
    input.format = Omittable::Value(pcm(16_000));
    assert!(matches!(
        validate_session_limits(Some(&input), None, None, None, None),
        Err(CreateRealtimeSessionConstraintError::PcmRate { actual: 16000, expected: 24000 })
    ));
    assert!(matches!(
        validate_session_limits(None, Some(&pcm(8_000)), None, None, None),
        Err(CreateRealtimeSessionConstraintError::PcmRate { actual: 8000, .. })
    ));
    let session = validate_session_limits(Some(&input), None, None, None, None);
    assert!(matches!(
        validate_client_secret_limits(Omittable::Value(60), session),
        Err(CreateRealtimeSessionConstraintError::PcmRate { actual: 16000, .. })
    ));
    let pcmu = RealtimeAudioFormat::Pcmu(RealtimePcmuAudioFormat::default());
    assert_eq!(validate_realtime_audio_format(&pcmu), Ok(()));
}

#[test]
fn audio_input_limits_are_checked_in_order() {
    let mut transcription = RealtimeAudioTranscription::default();
    transcription.languages = Omittable::Value(vec![]);
    let mut input = RealtimeAudioInputConfig::default();
    input.transcription = Omittable::Value(Nullable::Value(transcription));
    assert_eq!(
        validate_realtime_audio_input(&input),
        Err(CreateRealtimeSessionConstraintError::EmptyTranscriptionLanguages)
    );
    input.format = Omittable::Value(pcm(8_000));
    assert!(matches!(
        validate_realtime_audio_input(&input),
        Err(CreateRealtimeSessionConstraintError::PcmRate { actual: 8000, .. })
    ));

    for (timeout, ok) in [(4_999_i64, false), (5_000, true), (30_000, true), (30_001, false)] {
        let mut vad = RealtimeServerVad::default();
        vad.idle_timeout_ms = Omittable::Value(Nullable::Value(timeout));
        let mut input = RealtimeAudioInputConfig::default();
        input.turn_detection = Omittable::Value(Nullable::Value(RealtimeTurnDetection::ServerVad(vad)));
        let result = validate_realtime_audio_input(&input);
        if ok {
            assert_eq!(result, Ok(()));
        } else {
            assert_eq!(
                result,
                Err(CreateRealtimeSessionConstraintError::IdleTimeout {
                    actual: timeout,
                    minimum: 5_000,
                    maximum: 30_000
                })
            );
        }
    }
    let mut vad = RealtimeServerVad::default();
    vad.idle_timeout_ms = Omittable::Value(Nullable::Null);
    let mut input = RealtimeAudioInputConfig::default();
    input.turn_detection = Omittable::Value(Nullable::Value(RealtimeTurnDetection::ServerVad(vad)));
    assert_eq!(validate_realtime_audio_input(&input), Ok(()));
}

#[test]
fn session_limits_follow_the_documented_order() {
    let speed_error = CreateRealtimeSessionConstraintError::OutputSpeed {
        value: "2".to_owned(),
        minimum: "0.25".to_owned(),
        maximum: "1.5".to_owned(),
    };
    let ratio_error = CreateRealtimeSessionConstraintError::RetentionRatio {
        value: "2".to_owned(),
        minimum: "0".to_owned(),
        maximum: "1".to_owned(),
    };
    assert_eq!(
        validate_session_limits(None, None, Some(Err(speed_error.clone())), Some(Err(ratio_error.clone())), Some(-1)),
        Err(speed_error)
    );
    assert_eq!(
        validate_session_limits(None, None, Some(Ok(())), Some(Err(ratio_error.clone())), Some(-1)),
        Err(ratio_error)
    );
    assert_eq!(
        validate_session_limits(None, None, None, Some(Ok(())), Some(-1)),
        Err(CreateRealtimeSessionConstraintError::PostInstructions { actual: -1, minimum: 0 })
    );
    assert_eq!(validate_session_limits(None, None, None, Some(Ok(())), Some(0)), Ok(()));
    assert_eq!(
        validate_client_secret_limits(Omittable::Value(7_201), Ok(())),
        Err(CreateRealtimeSessionConstraintError::ClientSecretExpiration {
            actual: 7_201,
            minimum: 10,
            maximum: 7_200
        })
    );
    assert_eq!(validate_client_secret_limits(Omittable::Omitted, Ok(())), Ok(()));
}

#[test]
fn transcription_delay_uses_dedicated_enum_domain() {
    let delay = RealtimeTranscriptionDelay::from_raw("xhigh");
    assert!(matches!(delay, RealtimeTranscriptionDelay::XHigh));
    assert_eq!(delay.as_str(), "xhigh");
    let future = RealtimeTranscriptionDelay::from_raw("ultra");
    assert_eq!(future.unknown_value(), Some("ultra"));
    assert_eq!(future.as_str(), "ultra");
    assert!(matches!(RealtimeReasoningEffort::from_raw("high"), RealtimeReasoningEffort::High));
}

#[test]
fn call_dtos_keep_their_values() {
    let sdp = RealtimeSdp::new("v=0\r\n");
    assert_eq!(sdp.as_str(), "v=0\r\n");
    let reject = RealtimeCallRejectRequest::new().with_status_code(486);
    assert_eq!(reject.status_code, Omittable::Value(486));
    assert!(reject.clear_status_code().status_code.is_omitted());
}

#[test]
fn reject_request_clearing_the_status_restores_the_default() {
    let mut fresh = RealtimeCallRejectRequest::new();
    fresh.extra.insert("reason".to_string(), JsonValue::String("busy".to_string()));
    let cleared = fresh.with_status_code(603).clear_status_code();
    assert!(cleared.status_code.is_omitted());
    assert_eq!(cleared.extra_fields().len(), 1);
    assert!(matches!(cleared.extra_fields().get("reason"), Some(JsonValue::String(s)) if s == "busy"));
}

#[test]
fn realtime_audio_clone_keeps_the_bytes() {
    let audio = RealtimeAudio::new(vec![1, 2, 3]);
    assert_eq!(audio.as_bytes(), &[1, 2, 3]);
    assert_eq!(audio.clone().into_bytes(), vec![1, 2, 3]);
    assert_eq!(audio.to_base64(), "AQID");
}

#[test]
fn client_events_convert_into_the_union() {
    let event = RealtimeClientEvent::from(RealtimeClientEventResponseCancel::default());
    assert_eq!(event.event_type(), "response.cancel");
    event.validate(Ok(()), Ok(())).expect("no event id");
}
