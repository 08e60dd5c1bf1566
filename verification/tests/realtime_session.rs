use openai_rs_types::json::{JsonObject, JsonValue};
use openai_rs_types::realtime::{
    CreateRealtimeSessionConstraintError, RealtimeAudioInputConfig, RealtimeAudioTranscription,
    RealtimeServerVad, RealtimeTurnDetection, UnknownRealtimeObject,
    MIN_REALTIME_CLIENT_SECRET_SECONDS, MIN_REALTIME_IDLE_TIMEOUT_MS,
    MIN_REALTIME_POST_INSTRUCTIONS,
};
use openai_rs_types::realtime_calls::{RealtimeCallReferRequest, RealtimeSdp};
use openai_rs_types::realtime_events::{
    RealtimeClientEvent, RealtimeClientEventInputAudioBufferClear,
    RealtimeClientEventResponseCreate, RealtimeClientEventSessionUpdate,
};
use openai_rs_types::realtime_items::{RealtimeClientSecretExpiration, RealtimeTruncationTokenLimits};
use openai_rs_types::realtime_session::{
    session_branch, tool_branch, tool_choice_branch, truncation_branch, RealtimeAudioOutputConfig,
    RealtimeCallCreateRequest, RealtimeCreateClientSecretRequest, RealtimeFunctionTool,
    RealtimeResponseCreateParams, RealtimeRetentionRatioTruncation, RealtimeSessionAudio,
    RealtimeSessionBranch, RealtimeSessionConfig, RealtimeSessionCreateRequest, RealtimeToolBranch,
    RealtimeTranscriptionAudio, RealtimeTranscriptionSessionCreateRequest, RealtimeTruncation,
    RealtimeTruncationBranch,
};
use openai_rs_types::wire::{Nullable, Omittable};
use serde_json::Value;

type Outcome = Result<(), CreateRealtimeSessionConstraintError>;

fn lib_value(value: &Value) -> JsonValue {
    match value {
        Value::Null => JsonValue::Null,
        Value::Bool(b) => JsonValue::Bool(*b),
        Value::Number(n) => JsonValue::Number(n.to_string()),
        Value::String(s) => JsonValue::String(s.clone()),
        Value::Array(items) => JsonValue::Array(items.iter().map(lib_value).collect()),
        Value::Object(members) => {
            let mut object = JsonObject::new();
            for (key, member) in members {
                object.insert(key.clone(), lib_value(member));
            }
            JsonValue::Object(object)
        }
    }
}

fn parse(text: &str) -> JsonValue {
    lib_value(&serde_json::from_str(text).expect("fixture is JSON"))
}

fn speed_check(text: &str) -> Outcome {
    let speed: f64 = text.parse().expect("speed is a number");
    if speed.is_finite() && (0.25..=1.5).contains(&speed) {
        Ok(())
    } else {
        Err(CreateRealtimeSessionConstraintError::OutputSpeed {
            value: speed.to_string(),
            minimum: "0.25".to_owned(),
            maximum: "1.5".to_owned(),
        })
    }
}

fn ratio_check(text: &str) -> Outcome {
    let ratio: f64 = text.parse().expect("ratio is a number");
    if ratio.is_finite() && (0.0..=1.0).contains(&ratio) {
        Ok(())
    } else {
        Err(CreateRealtimeSessionConstraintError::RetentionRatio {
            value: ratio.to_string(),
            minimum: "0".to_owned(),
            maximum: "1".to_owned(),
        })
    }
}

fn float_checks(session: &RealtimeSessionCreateRequest) -> (Outcome, Outcome) {
    let speed = match &session.audio {
        Omittable::Value(RealtimeSessionAudio { output: Omittable::Value(output), .. }) => match &output.speed {
            Omittable::Value(text) => speed_check(text),
            Omittable::Omitted => Ok(()),
        },
        _ => Ok(()),
    };
    let ratio = match &session.truncation {
        Omittable::Value(RealtimeTruncation::RetentionRatio(t)) => ratio_check(&t.retention_ratio),
        _ => Ok(()),
    };
    (speed, ratio)
}

fn validate(session: &RealtimeSessionCreateRequest) -> Outcome {
    let (speed, ratio) = float_checks(session);
    session.validate(speed, ratio)
}

fn validate_secret(request: &RealtimeCreateClientSecretRequest) -> Outcome {
    let (speed, ratio) = match &request.session {
        Omittable::Value(RealtimeSessionConfig::Realtime(session)) => float_checks(session),
        _ => (Ok(()), Ok(())),
    };
    request.validate(speed, ratio)
}

fn with_speed(speed: &str) -> RealtimeSessionCreateRequest {
    let mut output = RealtimeAudioOutputConfig::default();
    output.speed = Omittable::Value(speed.to_owned());
    let mut audio = RealtimeSessionAudio::default();
    audio.output = Omittable::Value(output);
    let mut session = RealtimeSessionCreateRequest::default();
    session.audio = Omittable::Value(audio);
    session
}

fn with_input(input: RealtimeAudioInputConfig) -> RealtimeSessionCreateRequest {
    let mut audio = RealtimeSessionAudio::default();
    audio.input = Omittable::Value(input);
    let mut session = RealtimeSessionCreateRequest::default();
    session.audio = Omittable::Value(audio);
    session
}

fn with_truncation(truncation: RealtimeRetentionRatioTruncation) -> RealtimeSessionCreateRequest {
    let mut session = RealtimeSessionCreateRequest::default();
    session.truncation = Omittable::Value(RealtimeTruncation::RetentionRatio(truncation));
    session
}

#[test]
fn realtime_prompt_null_and_output_speed_match_python_and_openapi_inventory() {
    let mut session = RealtimeSessionCreateRequest::default();
    session.prompt = Omittable::Value(Nullable::Null);
    assert!(matches!(session.prompt, Omittable::Value(Nullable::Null)));

    let mut params = RealtimeResponseCreateParams::default();
    params.prompt = Omittable::Value(Nullable::Null);
    params.metadata = Omittable::Value(Nullable::Null);
    assert!(matches!(params.prompt, Omittable::Value(Nullable::Null)));
    assert!(matches!(params.metadata, Omittable::Value(Nullable::Null)));

    validate(&with_speed("0.25")).expect("0.25 is accepted");
    assert!(matches!(
        validate(&with_speed("1.51")),
        Err(CreateRealtimeSessionConstraintError::OutputSpeed { .. })
    ));
    assert!(validate(&with_speed("2.0")).is_err());

    let mut ratio = with_truncation(RealtimeRetentionRatioTruncation::new("1.0"));
    validate(&ratio).expect("retention_ratio 1.0 is accepted");
    ratio.truncation = Omittable::Value(RealtimeTruncation::RetentionRatio(RealtimeRetentionRatioTruncation::new("1.1")));
    assert!(matches!(
        validate(&ratio),
        Err(CreateRealtimeSessionConstraintError::RetentionRatio { .. })
    ));

    let mut post_instructions = RealtimeRetentionRatioTruncation::new("0.8");
    let mut limits = RealtimeTruncationTokenLimits::default();
    limits.post_instructions = Omittable::Value(MIN_REALTIME_POST_INSTRUCTIONS);
    post_instructions.token_limits = Omittable::Value(limits);
    validate(&with_truncation(post_instructions)).expect("official post_instructions 0 is accepted");
    let mut below = RealtimeRetentionRatioTruncation::new("0.8");
    let mut limits = RealtimeTruncationTokenLimits::default();
    limits.post_instructions = Omittable::Value(-1);
    below.token_limits = Omittable::Value(limits);
    assert!(matches!(
        validate(&with_truncation(below)),
        Err(CreateRealtimeSessionConstraintError::PostInstructions { actual: -1, minimum: 0 })
    ));

    let mut vad = RealtimeServerVad::default();
    vad.idle_timeout_ms = Omittable::Value(Nullable::Value(MIN_REALTIME_IDLE_TIMEOUT_MS));
    let mut input = RealtimeAudioInputConfig::default();
    input.turn_detection = Omittable::Value(Nullable::Value(RealtimeTurnDetection::ServerVad(vad)));
    validate(&with_input(input)).expect("idle_timeout_ms 5000 is accepted");
    let mut vad = RealtimeServerVad::default();
    vad.idle_timeout_ms = Omittable::Value(Nullable::Value(4999));
    let mut input = RealtimeAudioInputConfig::default();
    input.turn_detection = Omittable::Value(Nullable::Value(RealtimeTurnDetection::ServerVad(vad)));
    assert!(matches!(
        validate(&with_input(input)),
        Err(CreateRealtimeSessionConstraintError::IdleTimeout { actual: 4999, .. })
    ));

    let mut transcription = RealtimeAudioTranscription::default();
    transcription.languages = Omittable::Value(Vec::new());
    let mut input = RealtimeAudioInputConfig::default();
    input.transcription = Omittable::Value(Nullable::Value(transcription));
    assert!(matches!(
        validate(&with_input(input)),
        Err(CreateRealtimeSessionConstraintError::EmptyTranscriptionLanguages)
    ));

    let mut secret = RealtimeCreateClientSecretRequest::default();
    let mut expiration = RealtimeClientSecretExpiration::default();
    expiration.seconds = Omittable::Value(MIN_REALTIME_CLIENT_SECRET_SECONDS);
    secret.expires_after = Omittable::Value(expiration);
    validate_secret(&secret).expect("10-second secret is accepted");
    let mut expiration = RealtimeClientSecretExpiration::default();
    expiration.seconds = Omittable::Value(7_201);
    secret.expires_after = Omittable::Value(expiration);
    assert!(matches!(
        validate_secret(&secret),
        Err(CreateRealtimeSessionConstraintError::ClientSecretExpiration { actual: 7201, .. })
    ));
}

#[test]
fn float_outcomes_count_only_where_the_value_is_present() {
    let plain = RealtimeSessionCreateRequest::default();
    let speed_error = Err(CreateRealtimeSessionConstraintError::OutputSpeed {
        value: "9".to_owned(),
        minimum: "0.25".to_owned(),
        maximum: "1.5".to_owned(),
    });
    assert_eq!(plain.validate(speed_error.clone(), speed_error.clone()), Ok(()));
    assert_eq!(with_speed("9").validate(speed_error.clone(), Ok(())), speed_error);
    let ratio_error = Err(CreateRealtimeSessionConstraintError::RetentionRatio {
        value: "2".to_owned(),
        minimum: "0".to_owned(),
        maximum: "1".to_owned(),
    });
    let truncated = with_truncation(RealtimeRetentionRatioTruncation::new("2"));
    assert_eq!(truncated.validate(speed_error.clone(), ratio_error.clone()), ratio_error);
}

#[test]
fn session_checks_input_before_speed_before_ratio() {
    let mut transcription = RealtimeAudioTranscription::default();
    transcription.languages = Omittable::Value(Vec::new());
    let mut input = RealtimeAudioInputConfig::default();
    input.transcription = Omittable::Value(Nullable::Value(transcription));
    let mut session = with_speed("3.0");
    if let Omittable::Value(audio) = &mut session.audio {
        audio.input = Omittable::Value(input);
    }
    session.truncation = Omittable::Value(RealtimeTruncation::RetentionRatio(RealtimeRetentionRatioTruncation::new("5")));
    assert_eq!(validate(&session), Err(CreateRealtimeSessionConstraintError::EmptyTranscriptionLanguages));
    if let Omittable::Value(audio) = &mut session.audio {
        audio.input = Omittable::Omitted;
    }
    assert!(matches!(validate(&session), Err(CreateRealtimeSessionConstraintError::OutputSpeed { .. })));
}

#[test]
fn transcription_session_checks_only_its_input() {
    let plain = RealtimeTranscriptionSessionCreateRequest::default();
    assert_eq!(plain.validate(), Ok(()));
    let mut transcription = RealtimeAudioTranscription::default();
    transcription.languages = Omittable::Value(Vec::new());
    let mut input = RealtimeAudioInputConfig::default();
    input.transcription = Omittable::Value(Nullable::Value(transcription));
    let mut audio = RealtimeTranscriptionAudio::default();
    audio.input = Omittable::Value(input);
    let mut request = RealtimeTranscriptionSessionCreateRequest::default();
    request.audio = Omittable::Value(audio);
    assert_eq!(request.validate(), Err(CreateRealtimeSessionConstraintError::EmptyTranscriptionLanguages));
    let config = RealtimeSessionConfig::Transcription(Box::new(request));
    assert_eq!(
        config.validate(Ok(()), Ok(())),
        Err(CreateRealtimeSessionConstraintError::EmptyTranscriptionLanguages)
    );
    let unknown = UnknownRealtimeObject::from_value(parse(r#"{"type":"future"}"#)).expect("tagged");
    assert_eq!(RealtimeSessionConfig::Unknown(unknown).validate(Ok(()), Ok(())), Ok(()));
}

#[test]
fn client_secret_checks_expiration_before_session() {
    let mut request = RealtimeCreateClientSecretRequest::default();
    let mut expiration = RealtimeClientSecretExpiration::default();
    expiration.seconds = Omittable::Value(9);
    request.expires_after = Omittable::Value(expiration);
    request.session = Omittable::Value(RealtimeSessionConfig::Realtime(Box::new(with_speed("4"))));
    assert!(matches!(
        validate_secret(&request),
        Err(CreateRealtimeSessionConstraintError::ClientSecretExpiration { actual: 9, minimum: 10, maximum: 7200 })
    ));
    request.expires_after = Omittable::Omitted;
    assert!(matches!(validate_secret(&request), Err(CreateRealtimeSessionConstraintError::OutputSpeed { .. })));
}

#[test]
fn session_update_event_checks_its_session() {
    let update = RealtimeClientEventSessionUpdate::new(RealtimeSessionConfig::Realtime(Box::new(with_speed("0.1"))));
    let (speed, ratio) = match &update.session {
        RealtimeSessionConfig::Realtime(session) => float_checks(session),
        _ => (Ok(()), Ok(())),
    };
    let event = RealtimeClientEvent::SessionUpdate(Box::new(update));
    assert_eq!(event.event_type(), "session.update");
    assert!(matches!(event.validate(speed, ratio), Err(CreateRealtimeSessionConstraintError::OutputSpeed { .. })));
    let long = RealtimeClientEventSessionUpdate::new(RealtimeSessionConfig::Realtime(Box::new(
        RealtimeSessionCreateRequest::default(),
    )))
    .with_event_id(&"e".repeat(513));
    assert!(matches!(
        long.validate(Ok(()), Ok(())),
        Err(CreateRealtimeSessionConstraintError::EventId { actual: 513, maximum: 512 })
    ));
    let create = RealtimeClientEvent::ResponseCreate(Box::new(RealtimeClientEventResponseCreate::with_response(
        RealtimeResponseCreateParams::default(),
    )));
    assert_eq!(create.event_type(), "response.create");
    assert_eq!(
        RealtimeClientEvent::InputAudioBufferClear(Box::new(RealtimeClientEventInputAudioBufferClear::default()))
            .event_type(),
        "input_audio_buffer.clear"
    );
    let unknown = UnknownRealtimeObject::from_value(parse(r#"{"type":"future.event","event_id":"x"}"#)).expect("tagged");
    let future = RealtimeClientEvent::Unknown(unknown);
    assert_eq!(future.event_type(), "future.event");
    assert_eq!(future.validate(Ok(()), Ok(())), Ok(()));
}

#[test]
fn nested_unions_route_by_shape_and_tag() {
    assert_eq!(truncation_branch(&parse(r#""auto""#)), Ok(RealtimeTruncationBranch::Mode));
    assert_eq!(
        truncation_branch(&parse(r#"{"type":"retention_ratio","retention_ratio":0.5}"#)),
        Ok(RealtimeTruncationBranch::RetentionRatio)
    );
    assert_eq!(truncation_branch(&parse(r#"{"type":"future_policy"}"#)), Ok(RealtimeTruncationBranch::Unknown));
    assert_eq!(truncation_branch(&parse("7")), Err("Realtime truncation must be a string or object"));
    assert!(truncation_branch(&parse(r#"{"kind":"x"}"#)).is_err());

    assert_eq!(tool_branch(&parse(r#"{"type":"function","name":"f"}"#)), Ok(RealtimeToolBranch::Function));
    assert_eq!(tool_branch(&parse(r#"{"type":"mcp","server_label":"s"}"#)), Ok(RealtimeToolBranch::Mcp));
    assert_eq!(tool_branch(&parse(r#"{"type":"web_search"}"#)), Ok(RealtimeToolBranch::Unknown));
    assert!(tool_branch(&parse(r#""function""#)).is_err());

    assert_eq!(tool_choice_branch(&parse(r#""required""#)), Ok(None));
    assert_eq!(tool_choice_branch(&parse(r#"{"type":"mcp","server_label":"s"}"#)), Ok(Some(RealtimeToolBranch::Mcp)));
    assert!(tool_choice_branch(&parse("true")).is_err());

    assert_eq!(session_branch(&parse(r#"{"type":"realtime"}"#)), Ok(RealtimeSessionBranch::Realtime));
    assert_eq!(session_branch(&parse(r#"{"type":"transcription"}"#)), Ok(RealtimeSessionBranch::Transcription));
    assert_eq!(session_branch(&parse(r#"{"type":"translation"}"#)), Ok(RealtimeSessionBranch::Unknown));
}

#[test]
fn call_create_request_builders_keep_the_offer() {
    let request = RealtimeCallCreateRequest::new(RealtimeSdp::new("v=0\r\n"));
    assert_eq!(request.sdp.as_str(), "v=0\r\n");
    assert!(matches!(request.session, Omittable::Omitted));
    let request = request.with_session(RealtimeSessionCreateRequest::default());
    assert!(matches!(request.session, Omittable::Value(_)));
    let request = request.clear_session();
    assert!(matches!(request.session, Omittable::Omitted));
    assert_eq!(request.sdp.as_str(), "v=0\r\n");

    let tool = RealtimeFunctionTool::new("lookup");
    assert!(matches!(&tool.name, Omittable::Value(n) if n == "lookup"));
    assert!(matches!(tool.parameters, Omittable::Omitted));
}

#[test]
fn refer_target_must_be_an_absolute_uri() {
    let refer = RealtimeCallReferRequest::parse("tel:+14155550123").expect("absolute URI");
    assert_eq!(refer.target_uri.as_str(), "tel:+14155550123");
    assert_eq!(
        RealtimeCallReferRequest::parse("/relative/path").expect_err("relative"),
        url::ParseError::RelativeUrlWithoutBase
    );
    let parsed = url::Url::parse("sip:agent@example.com").expect("valid");
    let refer = RealtimeCallReferRequest::new(parsed.clone());
    assert_eq!(refer.target_uri, parsed);
}
