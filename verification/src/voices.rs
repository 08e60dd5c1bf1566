//! Access-controlled Custom Voice requests and responses.
//!
//! Custom voices are limited to eligible customers.  Uploads are checked when
//! the request is built: the text fields must not be blank, the audio must
//! declare a supported MIME type, and audio already in memory must fit in
//! 10 MiB.
use vstd::prelude::*;
use crate::files::ReplayableMultipartSource;
use crate::json::ExtraFields;
use crate::text::{chars_eq, is_blank, str_is_blank};
use crate::wire::{Nullable, Omittable};

verus! {


/// Maximum consent recording or audio sample size (10 MiB).
pub const MAX_CUSTOM_VOICE_AUDIO_BYTES: u64 = 10485760;

/// Opaque voice consent identifier.
#[derive(Debug, Clone)]
pub struct VoiceConsentId(pub String);

impl View for VoiceConsentId {
    type V = Seq<char>;

    open spec fn view(&self) -> Seq<char> {
        self.0@
    }
}

impl VoiceConsentId {
    /// Creates an ID without imposing assumptions on its format.
    pub fn new(value: &str) -> (r: Self)
        ensures
            r@ == value@,
    {
        VoiceConsentId(value.to_owned())
    }

    /// Borrows the opaque wire value.
    pub fn as_str(&self) -> (r: &str)
        ensures
            r@ == self@,
    {
        self.0.as_str()
    }

    /// Consumes the ID and returns its wire value.
    pub fn into_string(self) -> (r: String)
        ensures
            r@ == self@,
    {
        self.0
    }
}

/// Opaque custom voice identifier.
#[derive(Debug, Clone)]
pub struct VoiceId(pub String);

impl View for VoiceId {
    type V = Seq<char>;

    open spec fn view(&self) -> Seq<char> {
        self.0@
    }
}

impl VoiceId {
    /// Creates an ID without imposing assumptions on its format.
    pub fn new(value: &str) -> (r: Self)
        ensures
            r@ == value@,
    {
        VoiceId(value.to_owned())
    }

    /// Borrows the opaque wire value.
    pub fn as_str(&self) -> (r: &str)
        ensures
            r@ == self@,
    {
        self.0.as_str()
    }

    /// Consumes the ID and returns its wire value.
    pub fn into_string(self) -> (r: String)
        ensures
            r@ == self@,
    {
        self.0
    }
}

/// Invalid multipart custom-voice input rejected when the request is built.
///
/// Only audio whose bytes are in memory is measured here; file-backed audio
/// is measured against the same limit when the request is sent.
#[derive(Debug, Clone, Copy, PartialEq, Eq, Structural)]
pub enum VoiceRequestError {
    /// An audio source did not declare its MIME type.
    MissingAudioMediaType,
    /// The declared MIME type is not among the supported ones.
    UnsupportedAudioMediaType,
    /// In-memory audio exceeded 10 MiB.
    AudioTooLarge,
    /// A required text field was blank.
    EmptyTextField,
}

impl VoiceRequestError {
    /// The error message.
    pub fn message(&self) -> (r: &'static str)
        ensures
            r@ == match self {
                VoiceRequestError::MissingAudioMediaType => "custom-voice audio requires an explicit supported MIME type"@,
                VoiceRequestError::UnsupportedAudioMediaType => "unsupported custom-voice audio MIME type"@,
                VoiceRequestError::AudioTooLarge => "custom-voice audio exceeds the 10 MiB limit"@,
                VoiceRequestError::EmptyTextField => "custom-voice name and language must not be empty"@,
            },
    {
        match self {
            VoiceRequestError::MissingAudioMediaType => "custom-voice audio requires an explicit supported MIME type",
            VoiceRequestError::UnsupportedAudioMediaType => "unsupported custom-voice audio MIME type",
            VoiceRequestError::AudioTooLarge => "custom-voice audio exceeds the 10 MiB limit",
            VoiceRequestError::EmptyTextField => "custom-voice name and language must not be empty",
        }
    }
}

/// The MIME types that voice uploads accept.
pub open spec fn is_supported_voice_media_type(m: Seq<char>) -> bool {
    m == "audio/mpeg"@ || m == "audio/wav"@ || m == "audio/x-wav"@ || m == "audio/ogg"@ || m
        == "audio/aac"@ || m == "audio/flac"@ || m == "audio/webm"@ || m == "audio/mp4"@
}

/// Voice uploads accept exactly the MP3, WAV, Ogg, AAC, FLAC, WebM and MP4
/// audio types: `audio/mpeg`, `audio/wav`, `audio/x-wav`, `audio/ogg`,
/// `audio/aac`, `audio/flac`, `audio/webm` and `audio/mp4`.
pub proof fn law_voice_media_type_allowlist(m: Seq<char>)
    ensures
        is_supported_voice_media_type(m) <==> {
            ||| m == "audio/mpeg"@
            ||| m == "audio/wav"@
            ||| m == "audio/x-wav"@
            ||| m == "audio/ogg"@
            ||| m == "audio/aac"@
            ||| m == "audio/flac"@
            ||| m == "audio/webm"@
            ||| m == "audio/mp4"@
        },
{
}

/// Returns whether a media type is accepted for voice audio.
pub fn is_supported_voice_audio_media_type(media_type: &str) -> (r: bool)
    ensures
        r == is_supported_voice_media_type(media_type@),
{
    chars_eq(media_type, "audio/mpeg") || chars_eq(media_type, "audio/wav") || chars_eq(
        media_type,
        "audio/x-wav",
    ) || chars_eq(media_type, "audio/ogg") || chars_eq(media_type, "audio/aac") || chars_eq(
        media_type,
        "audio/flac",
    ) || chars_eq(media_type, "audio/webm") || chars_eq(media_type, "audio/mp4")
}

/// The outcome of checking an audio source: it must declare a supported MIME
/// type, and bytes already in memory must fit in 10 MiB.
pub open spec fn source_check(source: ReplayableMultipartSource) -> Result<(), VoiceRequestError> {
    match source.spec_media_type() {
        None => Err(VoiceRequestError::MissingAudioMediaType),
        Some(m) => if !is_supported_voice_media_type(m) {
            Err(VoiceRequestError::UnsupportedAudioMediaType)
        } else {
            match source.spec_bytes() {
                Some(b) => if b.len() > MAX_CUSTOM_VOICE_AUDIO_BYTES {
                    Err(VoiceRequestError::AudioTooLarge)
                } else {
                    Ok(())
                },
                None => Ok(()),
            }
        },
    }
}

fn validate_source(source: &ReplayableMultipartSource) -> (r: Result<(), VoiceRequestError>)
    ensures
        r == source_check(*source),
{
    let media_type = match source.media_type() {
        Some(m) => m,
        None => {
            return Err(VoiceRequestError::MissingAudioMediaType);
        },
    };
    if !is_supported_voice_audio_media_type(media_type) {
        return Err(VoiceRequestError::UnsupportedAudioMediaType);
    }
    match source.as_bytes() {
        Some(bytes) => {
            let length = bytes.len() as u64;
            if length > MAX_CUSTOM_VOICE_AUDIO_BYTES {
                return Err(VoiceRequestError::AudioTooLarge);
            }
        },
        None => {},
    }
    Ok(())
}

/// Multipart body for creating a voice consent.  It holds a person's name
/// and recording, so it has no `Debug`.
#[derive(Clone)]
pub struct CreateVoiceConsentRequest {
    name: String,
    recording: ReplayableMultipartSource,
    language: String,
}

impl CreateVoiceConsentRequest {
    pub closed spec fn spec_name(&self) -> Seq<char> {
        self.name@
    }

    pub closed spec fn spec_language(&self) -> Seq<char> {
        self.language@
    }

    pub closed spec fn spec_recording(&self) -> ReplayableMultipartSource {
        self.recording
    }

    /// A consent upload, once the text fields and the recording are checked.
    pub fn new(name: &str, language: &str, recording: ReplayableMultipartSource) -> (r: Result<
        Self,
        VoiceRequestError,
    >)
        ensures
            (is_blank(name@) || is_blank(language@)) ==> r == Err::<Self, VoiceRequestError>(
                VoiceRequestError::EmptyTextField,
            ),
            !(is_blank(name@) || is_blank(language@)) && source_check(recording) is Err ==> r
                == Err::<Self, VoiceRequestError>(source_check(recording)->Err_0),
            !(is_blank(name@) || is_blank(language@)) && source_check(recording) is Ok ==> (r matches Ok(q)
                && q.spec_name() == name@ && q.spec_language() == language@ && q.spec_recording()
                == recording),
    {
        if str_is_blank(name) || str_is_blank(language) {
            return Err(VoiceRequestError::EmptyTextField);
        }
        match validate_source(&recording) {
            Ok(()) => {},
            Err(e) => {
                return Err(e);
            },
        }
        Ok(CreateVoiceConsentRequest { name: name.to_owned(), recording, language: language.to_owned() })
    }

    /// The consent label.
    pub fn name(&self) -> (r: &str)
        ensures
            r@ == self.spec_name(),
    {
        self.name.as_str()
    }

    /// The BCP 47 language tag.
    pub fn language(&self) -> (r: &str)
        ensures
            r@ == self.spec_language(),
    {
        self.language.as_str()
    }

    /// The replayable recording.
    pub fn recording(&self) -> (r: &ReplayableMultipartSource)
        ensures
            *r == self.spec_recording(),
    {
        &self.recording
    }
}

/// JSON body for renaming a voice consent.
#[derive(Debug, Clone)]
pub struct UpdateVoiceConsentRequest {
    name: String,
}

impl UpdateVoiceConsentRequest {
    pub closed spec fn spec_name(&self) -> Seq<char> {
        self.name@
    }

    /// A rename request; the new name must not be blank.
    pub fn new(name: &str) -> (r: Result<Self, VoiceRequestError>)
        ensures
            is_blank(name@) ==> r == Err::<Self, VoiceRequestError>(VoiceRequestError::EmptyTextField),
            !is_blank(name@) ==> (r matches Ok(q) && q.spec_name() == name@),
    {
        if str_is_blank(name) {
            return Err(VoiceRequestError::EmptyTextField);
        }
        Ok(UpdateVoiceConsentRequest { name: name.to_owned() })
    }

    /// The new label.
    pub fn name(&self) -> (r: &str)
        ensures
            r@ == self.spec_name(),
    {
        self.name.as_str()
    }
}

/// Consent recording metadata; the recording itself is never returned.
#[derive(Clone, Debug)]
pub struct VoiceConsent {
    pub id: VoiceConsentId,
    pub name: String,
    pub language: String,
    pub created_at: i64,
    pub extra: ExtraFields,
}

impl VoiceConsent {
    /// The consent id.
    pub fn id(&self) -> (r: &VoiceConsentId)
        ensures
            r@ == self.id@,
    {
        &self.id
    }

    /// The consent label.
    pub fn name(&self) -> (r: &str)
        ensures
            r@ == self.name@,
    {
        self.name.as_str()
    }

    /// The language tag.
    pub fn language(&self) -> (r: &str)
        ensures
            r@ == self.language@,
    {
        self.language.as_str()
    }

    /// Creation time in Unix seconds.
    pub fn created_at(&self) -> (r: i64)
        ensures
            r == self.created_at,
    {
        self.created_at
    }

    /// Members not modelled here, kept as received.
    pub fn extra_fields(&self) -> (r: &ExtraFields)
        ensures
            r@ == self.extra@,
    {
        &self.extra
    }
}

/// Consent deletion result.
#[derive(Clone, Debug)]
pub struct DeletedVoiceConsent {
    pub id: VoiceConsentId,
    pub deleted: bool,
    pub extra: ExtraFields,
}

impl DeletedVoiceConsent {
    /// Whether the deletion completed.
    pub fn is_deleted(&self) -> (r: bool)
        ensures
            r == self.deleted,
    {
        self.deleted
    }
}

/// Query parameters for listing voice consents.
#[derive(Debug, Clone)]
pub struct ListVoiceConsentsParams {
    pub after: Omittable<VoiceConsentId>,
    pub limit: Omittable<u32>,
}

impl ListVoiceConsentsParams {
    /// Empty list parameters.
    pub fn new() -> (r: Self)
        ensures
            r.after is Omitted,
            r.limit is Omitted,
    {
        ListVoiceConsentsParams { after: Omittable::Omitted, limit: Omittable::Omitted }
    }

    /// Sets an opaque cursor.
    pub fn after(self, after: &str) -> (r: Self)
        ensures
            r.after matches Omittable::Value(a) && a@ == after@,
            r.limit == self.limit,
    {
        ListVoiceConsentsParams { after: Omittable::Value(VoiceConsentId::new(after)), ..self }
    }

    /// Sets the page size.
    pub fn limit(self, limit: u32) -> (r: Self)
        ensures
            r.limit == Omittable::Value(limit),
            r.after == self.after,
    {
        ListVoiceConsentsParams { limit: Omittable::Value(limit), ..self }
    }

    /// The starting cursor.
    pub fn after_ref(&self) -> (r: Option<&VoiceConsentId>)
        ensures
            match self.after {
                Omittable::Value(a) => r == Some(&a),
                Omittable::Omitted => r is None,
            },
    {
        match &self.after {
            Omittable::Value(id) => Some(id),
            Omittable::Omitted => None,
        }
    }
}

impl Default for ListVoiceConsentsParams {
    fn default() -> (r: Self)
        ensures
            r.after is Omitted,
            r.limit is Omitted,
    {
        ListVoiceConsentsParams::new()
    }
}

/// Cursor page of voice consents.
#[derive(Clone, Debug)]
pub struct VoiceConsentList {
    pub data: Vec<VoiceConsent>,
    pub first_id: Omittable<Nullable<VoiceConsentId>>,
    pub last_id: Omittable<Nullable<VoiceConsentId>>,
    pub has_more: bool,
    pub extra: ExtraFields,
}

impl VoiceConsentList {
    /// The consents on this page.
    pub fn data(&self) -> (r: &[VoiceConsent])
        ensures
            r@ == self.data@,
    {
        self.data.as_slice()
    }

    /// Whether another page exists.
    pub fn has_more(&self) -> (r: bool)
        ensures
            r == self.has_more,
    {
        self.has_more
    }

    /// The last cursor, when it is present and not `null`.
    pub fn last_id(&self) -> (r: Option<&VoiceConsentId>)
        ensures
            match self.last_id {
                Omittable::Value(Nullable::Value(id)) => r == Some(&id),
                _ => r is None,
            },
    {
        match &self.last_id {
            Omittable::Value(Nullable::Value(id)) => Some(id),
            _ => None,
        }
    }

    /// Members not modelled here, kept as received.
    pub fn extra_fields(&self) -> (r: &ExtraFields)
        ensures
            r@ == self.extra@,
    {
        &self.extra
    }
}

/// Multipart body for creating a custom voice.  It holds biometric input,
/// so it has no `Debug`.
#[derive(Clone)]
pub struct CreateVoiceRequest {
    name: String,
    audio_sample: ReplayableMultipartSource,
    consent: VoiceConsentId,
}

impl CreateVoiceRequest {
    pub closed spec fn spec_name(&self) -> Seq<char> {
        self.name@
    }

    pub closed spec fn spec_consent(&self) -> Seq<char> {
        self.consent@
    }

    pub closed spec fn spec_audio_sample(&self) -> ReplayableMultipartSource {
        self.audio_sample
    }

    /// A custom voice upload, once the name and the audio are checked.
    pub fn new(name: &str, consent: &str, audio_sample: ReplayableMultipartSource) -> (r: Result<
        Self,
        VoiceRequestError,
    >)
        ensures
            is_blank(name@) ==> r == Err::<Self, VoiceRequestError>(VoiceRequestError::EmptyTextField),
            !is_blank(name@) && source_check(audio_sample) is Err ==> r == Err::<Self, VoiceRequestError>(
                source_check(audio_sample)->Err_0,
            ),
            !is_blank(name@) && source_check(audio_sample) is Ok ==> (r matches Ok(q) && q.spec_name()
                == name@ && q.spec_consent() == consent@ && q.spec_audio_sample() == audio_sample),
    {
        if str_is_blank(name) {
            return Err(VoiceRequestError::EmptyTextField);
        }
        match validate_source(&audio_sample) {
            Ok(()) => {},
            Err(e) => {
                return Err(e);
            },
        }
        Ok(CreateVoiceRequest {
            name: name.to_owned(),
            audio_sample,
            consent: VoiceConsentId::new(consent),
        })
    }

    /// The voice name.
    pub fn name(&self) -> (r: &str)
        ensures
            r@ == self.spec_name(),
    {
        self.name.as_str()
    }

    /// The consent id.
    pub fn consent(&self) -> (r: &VoiceConsentId)
        ensures
            r@ == self.spec_consent(),
    {
        &self.consent
    }

    /// The replayable audio sample.
    pub fn audio_sample(&self) -> (r: &ReplayableMultipartSource)
        ensures
            *r == self.spec_audio_sample(),
    {
        &self.audio_sample
    }
}

/// Custom voice metadata.
#[derive(Clone, Debug)]
pub struct Voice {
    pub id: VoiceId,
    pub name: String,
    pub created_at: i64,
    pub extra: ExtraFields,
}

impl Voice {
    /// The voice id.
    pub fn id(&self) -> (r: &VoiceId)
        ensures
            r@ == self.id@,
    {
        &self.id
    }

    /// The voice name.
    pub fn name(&self) -> (r: &str)
        ensures
            r@ == self.name@,
    {
        self.name.as_str()
    }

    /// Creation time in Unix seconds.
    pub fn created_at(&self) -> (r: i64)
        ensures
            r == self.created_at,
    {
        self.created_at
    }

    /// Members not modelled here, kept as received.
    pub fn extra_fields(&self) -> (r: &ExtraFields)
        ensures
            r@ == self.extra@,
    {
        &self.extra
    }
}

/// Resource name of a voice consent.
pub type VoiceConsentResource = VoiceConsent;

/// Resource name of a voice consent deletion.
pub type VoiceConsentDeletedResource = DeletedVoiceConsent;

/// A page of voice consents, as a resource.
pub type VoiceConsentListResource = VoiceConsentList;

/// A custom voice, as a resource.
pub type VoiceResource = Voice;


/// The documented limits of custom voices.
pub proof fn law_custom_voice_limits()
    ensures
        MAX_CUSTOM_VOICE_AUDIO_BYTES == 10485760,
{
}

} // verus!
