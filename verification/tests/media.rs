use openai_rs_types::files::ReplayableMultipartSource;
use openai_rs_types::json::{JsonObject, JsonValue};
use openai_rs_types::media::{
    media_discriminator, CreateImageEditJsonRequest, CreateImageEditMultipartRequest,
    CreateImageRequest, GeneratedImage, ImageBackground, ImageCompression, ImageCount,
    ImageEditJsonRequest, ImageEditJsonRequestBody, ImageGenerationRequest,
    ImageGenerationStreamRequest, ImageOutputFormat, ImageQuality, ImageReference, ImageSize,
    PartialImageCount, SpeechAudioDeltaEvent, SpeechAudioDoneEvent, SpeechStreamEvent, SpeechUsage,
};
use openai_rs_types::media_audio::{
    CreateTranscriptionRequest, CreateTranslationRequest, TranscriptionChunkingMode,
    TranscriptionChunkingStrategy, TranscriptionInclude, TranscriptionResponseFormat,
    TranslationResponseFormat,
};
use openai_rs_types::media::{SpeechResponseFormat, SpeechStreamFormat, SpeechVoice};
use openai_rs_types::media_audio::{SpeechRequest, SpeechStreamRequest};
use openai_rs_types::scalar::ModelId;
use openai_rs_types::wire::{Nullable, Omittable};

fn bytes_source(bytes: &[u8]) -> ReplayableMultipartSource {
    ReplayableMultipartSource::from_bytes(bytes.to_vec().into_boxed_slice())
}

#[test]
fn bounded_image_values_validate_on_build_and_decode() {
    assert_eq!(ImageCount::new(1).expect("one").get(), 1);
    assert!(ImageCount::new(0).is_err());
    assert!(ImageCount::new(11).is_err());
    assert_eq!(PartialImageCount::new(0).expect("zero").get(), 0);
    assert_eq!(PartialImageCount::new(3).expect("three").get(), 3);
    assert!(PartialImageCount::new(4).is_err());
    assert_eq!(ImageCompression::new(100).expect("hundred").get(), 100);
    assert!(ImageCompression::from_wire(101).is_err());
    assert!(ImageCount::from_wire(300).is_err());
    let error = ImageCount::new(11).expect_err("too many");
    assert_eq!(error.actual(), 11);
}

#[test]
fn image_generation_typestate_preserves_null_and_open_values() {
    let request = CreateImageRequest::new("A lighthouse")
        .with_model(ModelId::new("gpt-image-future".to_owned()))
        .with_quality(ImageQuality::Auto)
        .with_size(ImageSize::from_raw("1536x864"))
        .with_output_format(ImageOutputFormat::Png)
        .with_background(ImageBackground::Transparent);
    assert!(request.stream().is_omitted());
    assert!(matches!(&request.body().size, Omittable::Value(Nullable::Value(size)) if size.as_str() == "1536x864"));

    let stream = request.into_streaming().with_partial_images(PartialImageCount::new(2).expect("two"));
    assert_eq!(stream.stream(), &Omittable::Value(Nullable::Value(true)));
    assert!(matches!(stream.partial_images(), Omittable::Value(Nullable::Value(count)) if count.get() == 2));

    let body = || openai_rs_types::media::ImageGenerationRequestBody::new("x");
    assert!(ImageGenerationRequest::from_wire(body(), Omittable::Value(Nullable::Value(true)), Omittable::Omitted).is_err());
    assert!(ImageGenerationStreamRequest::from_wire(body(), Omittable::Value(Nullable::Value(true)), Omittable::Omitted).is_ok());
    assert!(ImageGenerationStreamRequest::from_wire(body(), Omittable::Omitted, Omittable::Omitted).is_err());
    assert!(ImageGenerationRequest::from_wire(
        body(),
        Omittable::Omitted,
        Omittable::Value(Nullable::Value(PartialImageCount::new(1).expect("one")))
    )
    .is_err());
    let mut explicit_null = body();
    explicit_null.model = Omittable::Value(Nullable::Null);
    let decoded = ImageGenerationRequest::from_wire(explicit_null, Omittable::Omitted, Omittable::Omitted)
        .expect("explicit null model is kept");
    assert!(matches!(decoded.body().model, Omittable::Value(Nullable::Null)));
}

fn object(pairs: &[(&str, &str)]) -> JsonObject {
    let mut object = JsonObject::new();
    for (key, value) in pairs {
        object.insert((*key).to_owned(), JsonValue::String((*value).to_owned()));
    }
    object
}

#[test]
fn image_json_edit_references_are_exact_and_stream_typed() {
    assert!(ImageReference::from_json(&object(&[("image_url", "https://example.test/a.png"), ("file_id", "file_1")])).is_err());
    assert!(ImageReference::from_json(&object(&[])).is_err());
    assert!(matches!(
        ImageReference::from_json(&object(&[("file_id", "file_1")])),
        Ok(ImageReference::File(id)) if id.as_str() == "file_1"
    ));

    let request = CreateImageEditJsonRequest::new(ImageReference::url("https://example.test/a.png"), "Add snow")
        .with_image(ImageReference::file("file_2"))
        .with_mask(ImageReference::file("file_mask"))
        .with_quality(ImageQuality::High)
        .into_streaming()
        .with_partial_images(PartialImageCount::new(1).expect("one"));
    let images = &request.body().images;
    assert!(matches!(&images[0], ImageReference::Url(url) if url == "https://example.test/a.png"));
    assert!(matches!(&images[1], ImageReference::File(id) if id.as_str() == "file_2"));
    assert_eq!(request.stream(), &Omittable::Value(Nullable::Value(true)));

    let mut empty = ImageEditJsonRequestBody::new(ImageReference::file("file_1"), "bad");
    empty.images.clear();
    assert!(ImageEditJsonRequest::from_wire(empty, Omittable::Omitted, Omittable::Omitted).is_err());
}

#[test]
fn image_multipart_edit_is_replayable_redacted_and_not_json() {
    assert!(CreateImageEditMultipartRequest::from_images(Vec::new(), "bad").is_err());
    assert!(CreateImageEditMultipartRequest::from_images((0..17).map(|_| bytes_source(b"image")).collect(), "bad").is_err());
    let request = CreateImageEditMultipartRequest::from_images(
        vec![bytes_source(b"secret-image-1"), bytes_source(b"secret-image-2")],
        "Edit",
    )
    .expect("two images")
    .with_mask(bytes_source(b"secret-mask"))
    .with_quality(ImageQuality::High)
    .into_streaming()
    .with_partial_images(PartialImageCount::new(1).expect("one"));
    assert_eq!(request.images().len(), 2);
    assert!(request.mask().is_some());
    assert!(request.metadata.is_streaming());
    let debug = format!("{request:?}");
    assert!(!debug.contains("secret-image"));
    assert!(!debug.contains("secret-mask"));
}

#[test]
fn image_data_urls_hold_base64_bytes() {
    let reference = ImageReference::from_bytes("image/png", b"PNG");
    assert!(matches!(reference, ImageReference::Url(url) if url == "data:image/png;base64,UE5H"));
    let image = GeneratedImage {
        b64_json: Omittable::Value("UE5H".to_owned()),
        url: Omittable::Omitted,
        revised_prompt: Omittable::Omitted,
        extra: JsonObject::new(),
    };
    assert_eq!(image.decode().expect("valid base64"), Some(b"PNG".to_vec()));
    let url_only = GeneratedImage {
        b64_json: Omittable::Omitted,
        url: Omittable::Value("https://example.test/i.png".to_owned()),
        revised_prompt: Omittable::Omitted,
        extra: JsonObject::new(),
    };
    assert_eq!(url_only.decode().expect("no data"), None);
}

#[test]
fn speech_stream_events_decode_and_end_on_done() {
    let delta = SpeechAudioDeltaEvent { audio: "UklGRg==".to_owned(), extra: JsonObject::new() };
    assert_eq!(delta.decode_audio().expect("audio"), b"RIFF".to_vec());
    assert!(!SpeechStreamEvent::AudioDelta(delta).is_terminal());
    let done = SpeechAudioDoneEvent {
        usage: SpeechUsage { input_tokens: 1, output_tokens: 2, total_tokens: 3, extra: JsonObject::new() },
        extra: JsonObject::new(),
    };
    assert!(SpeechStreamEvent::AudioDone(done).is_terminal());
    assert!(!SpeechStreamEvent::Unknown(JsonObject::new()).is_terminal());
}

#[test]
fn media_tags_need_a_string_type() {
    let mut tagged = JsonObject::new();
    tagged.insert("type".to_owned(), JsonValue::String("speech.audio.delta".to_owned()));
    assert_eq!(media_discriminator(&JsonValue::Object(tagged)), Ok("speech.audio.delta"));
    assert!(media_discriminator(&JsonValue::Null).is_err());
}

#[test]
fn transcription_multipart_keeps_binary_out_of_serde_and_debug() {
    let request = CreateTranscriptionRequest::new(
        bytes_source(b"super-secret-audio"),
        ModelId::new("gpt-4o-transcribe-diarize".to_owned()),
    )
    .with_language("en")
    .with_logprobs()
    .with_chunking_strategy(TranscriptionChunkingStrategy::Mode(TranscriptionChunkingMode::Auto))
    .with_known_speaker("agent", "audio/wav", b"speaker-sample")
    .into_streaming()
    .with_response_format(TranscriptionResponseFormat::DiarizedJson);

    assert_eq!(request.file().as_bytes(), Some(b"super-secret-audio".as_slice()));
    assert!(request.metadata.is_streaming());
    assert!(matches!(&request.metadata.response_format, Omittable::Value(TranscriptionResponseFormat::DiarizedJson)));
    assert!(matches!(&request.metadata.included, Omittable::Value(v) if matches!(v.as_slice(), [TranscriptionInclude::Logprobs])));
    let Omittable::Value(names) = &request.metadata.known_speaker_names else { panic!("names") };
    assert_eq!(names, &vec!["agent".to_owned()]);
    let Omittable::Value(references) = &request.metadata.known_speaker_references else { panic!("references") };
    assert_eq!(references.len(), 1);
    assert!(references[0].starts_with("data:audio/wav;base64,"));
    assert_eq!(references[0], "data:audio/wav;base64,c3BlYWtlci1zYW1wbGU=");

    let debug = format!("{request:?}");
    assert!(!debug.contains("super-secret-audio"));
}

#[test]
fn known_speakers_stay_paired() {
    let request = CreateTranscriptionRequest::new(bytes_source(b"a"), ModelId::new("m".to_owned()))
        .with_known_speaker("one", "audio/wav", b"1")
        .with_known_speaker("two", "audio/mpeg", b"2");
    let Omittable::Value(names) = &request.metadata.known_speaker_names else { panic!("names") };
    let Omittable::Value(references) = &request.metadata.known_speaker_references else { panic!("references") };
    assert_eq!(names.len(), references.len());
    assert_eq!(names[1], "two");
    assert_eq!(references[1], "data:audio/mpeg;base64,Mg==");
    assert!(!request.metadata.is_streaming());
}

#[test]
fn translation_metadata_keeps_prompt_and_format() {
    let request = CreateTranslationRequest::new(bytes_source(b"audio"), ModelId::new("whisper-1".to_owned()))
        .with_prompt("Technical English")
        .with_response_format(TranslationResponseFormat::Text);
    assert!(matches!(&request.metadata.prompt, Omittable::Value(p) if p == "Technical English"));
    assert!(matches!(&request.metadata.response_format, Omittable::Value(TranslationResponseFormat::Text)));
    assert!(request.metadata.temperature.is_omitted());
    assert_eq!(request.file().as_bytes(), Some(b"audio".as_slice()));
}

#[test]
fn speech_request_typestate_follows_stream_format() {
    let request = SpeechRequest::new(
        ModelId::new("gpt-4o-mini-tts".to_owned()),
        "hello",
        SpeechVoice::Named("coral".to_owned()),
    )
    .with_instructions("Speak warmly")
    .with_response_format(SpeechResponseFormat::Wav)
    .with_speed("1.5");
    assert!(request.stream_format().is_omitted());
    let stream = request.into_streaming();
    assert!(matches!(stream.stream_format(), Omittable::Value(SpeechStreamFormat::Sse)));
    assert_eq!(stream.input(), "hello");
    assert!(matches!(stream.speed(), Omittable::Value(s) if s == "1.5"));
    let wire = |format: Omittable<SpeechStreamFormat>| {
        (
            ModelId::new("m".to_owned()),
            "x".to_owned(),
            SpeechVoice::Named("alloy".to_owned()),
            Omittable::Omitted,
            Omittable::Omitted,
            Omittable::Omitted,
            format,
        )
    };
    let (m, i, v, ins, rf, sp, sf) = wire(Omittable::Value(SpeechStreamFormat::Sse));
    assert_eq!(
        SpeechRequest::from_wire(m, i, v, ins, rf, sp, sf).err(),
        Some("non-streaming speech request cannot use `stream_format: sse`")
    );
    let (m, i, v, ins, rf, sp, sf) = wire(Omittable::Value(SpeechStreamFormat::Audio));
    assert_eq!(
        SpeechStreamRequest::from_wire(m, i, v, ins, rf, sp, sf).err(),
        Some("streaming speech request requires `stream_format: sse`")
    );
    let (m, i, v, ins, rf, sp, sf) = wire(Omittable::Omitted);
    assert!(SpeechRequest::from_wire(m, i, v, ins, rf, sp, sf).is_ok());
}

#[test]
fn streaming_image_edit_keeps_every_other_field() {
    let request = CreateImageEditMultipartRequest::new(bytes_source(b"image"), "Edit")
        .with_quality(ImageQuality::High)
        .with_output_format(ImageOutputFormat::Png);
    let streaming = request.into_streaming();
    assert!(streaming.metadata.is_streaming());
    assert_eq!(streaming.metadata.prompt, "Edit");
    assert!(matches!(streaming.metadata.quality, Omittable::Value(Nullable::Value(ImageQuality::High))));
    assert!(matches!(streaming.metadata.output_format, Omittable::Value(Nullable::Value(ImageOutputFormat::Png))));
    assert!(matches!(streaming.metadata.model, Omittable::Omitted));
    assert!(matches!(streaming.metadata.partial_images, Omittable::Omitted));
}
