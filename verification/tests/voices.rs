use openai_rs_types::files::ReplayableMultipartSource;
use openai_rs_types::voices::{
    CreateVoiceConsentRequest, CreateVoiceRequest, UpdateVoiceConsentRequest, VoiceRequestError,
    MAX_CUSTOM_VOICE_AUDIO_BYTES,
};

fn source(bytes: &[u8]) -> ReplayableMultipartSource {
    ReplayableMultipartSource::from_bytes(bytes.to_vec().into_boxed_slice()).with_media_type("audio/x-wav")
}

#[test]
fn multipart_requests_validate_and_redact_biometric_inputs() {
    let consent = CreateVoiceConsentRequest::new("private-person", "en-US", source(b"audio"))
        .unwrap_or_else(|_| panic!("valid consent request"));
    assert_eq!(consent.name(), "private-person");
    assert_eq!(consent.language(), "en-US");
    assert_eq!(consent.recording().as_bytes(), Some(b"audio".as_slice()));
    let voice = CreateVoiceRequest::new("private voice", "cons_secret", source(b"BIOMETRIC_PAYLOAD_987"))
        .unwrap_or_else(|_| panic!("valid voice request"));
    assert_eq!(voice.consent().as_str(), "cons_secret");
    assert_eq!(voice.name(), "private voice");
}

#[test]
fn invalid_mime_missing_mime_and_large_bytes_fail_before_transport() {
    let missing = ReplayableMultipartSource::from_bytes(b"x".to_vec().into_boxed_slice());
    assert_eq!(
        CreateVoiceConsentRequest::new("name", "en-US", missing).err(),
        Some(VoiceRequestError::MissingAudioMediaType)
    );
    let unsupported = ReplayableMultipartSource::from_bytes(b"x".to_vec().into_boxed_slice())
        .with_media_type("application/octet-stream");
    assert_eq!(
        CreateVoiceConsentRequest::new("name", "en-US", unsupported).err(),
        Some(VoiceRequestError::UnsupportedAudioMediaType)
    );
    let large = ReplayableMultipartSource::from_bytes(vec![0; MAX_CUSTOM_VOICE_AUDIO_BYTES as usize + 1].into_boxed_slice())
        .with_media_type("audio/wav");
    assert_eq!(
        CreateVoiceRequest::new("voice", "cons_1", large).err(),
        Some(VoiceRequestError::AudioTooLarge)
    );
    let exact = ReplayableMultipartSource::from_bytes(vec![0; MAX_CUSTOM_VOICE_AUDIO_BYTES as usize].into_boxed_slice())
        .with_media_type("audio/wav");
    assert!(CreateVoiceRequest::new("voice", "cons_1", exact).is_ok());
}

#[test]
fn blank_text_fields_are_refused() {
    assert_eq!(
        CreateVoiceConsentRequest::new("  ", "en-US", source(b"a")).err(),
        Some(VoiceRequestError::EmptyTextField)
    );
    assert_eq!(
        CreateVoiceConsentRequest::new("name", "\t\n", source(b"a")).err(),
        Some(VoiceRequestError::EmptyTextField)
    );
    assert_eq!(UpdateVoiceConsentRequest::new(" ").err(), Some(VoiceRequestError::EmptyTextField));
    assert_eq!(UpdateVoiceConsentRequest::new("renamed").expect("valid rename").name(), "renamed");
    assert_eq!(
        VoiceRequestError::AudioTooLarge.message(),
        "custom-voice audio exceeds the 10 MiB limit"
    );
}
