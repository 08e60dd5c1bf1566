//! Realtime API wire types: request limits, tagged-object routing, audio
//! payloads and the float-free session, translation, call and event values.
//!
//! Known tags decode strictly into their typed payloads; an unknown future
//! tag keeps its complete JSON object in [`UnknownRealtimeObject`].
use vstd::prelude::*;
use crate::json::{ExtraFields, Json, JsonObject, JsonValue, obj_get};
use crate::media::{Base64DecodeError, base64_decoded, base64_encoded, decode_base64, encode_base64};
use crate::text::chars_eq;
use crate::realtime_enums::{
    RealtimeNoiseReductionType, RealtimeTranscriptionDelay, RealtimeVadEagerness, RealtimeVoiceName,
};
use crate::wire::{Nullable, Omittable};

verus! {

broadcast use crate::json::lemma_value_view;

/// Inclusive minimum for client-secret `expires_after.seconds`.
pub const MIN_REALTIME_CLIENT_SECRET_SECONDS: i64 = 10;
/// Inclusive maximum for client-secret `expires_after.seconds`.
pub const MAX_REALTIME_CLIENT_SECRET_SECONDS: i64 = 7200;
/// Inclusive minimum for retention-ratio `token_limits.post_instructions`.
pub const MIN_REALTIME_POST_INSTRUCTIONS: i64 = 0;
/// Inclusive minimum for Server VAD `idle_timeout_ms`.
pub const MIN_REALTIME_IDLE_TIMEOUT_MS: i64 = 5000;
/// Inclusive maximum for Server VAD `idle_timeout_ms`.
pub const MAX_REALTIME_IDLE_TIMEOUT_MS: i64 = 30000;
/// Inclusive maximum for client `event_id` strings, in characters.
pub const MAX_REALTIME_EVENT_ID_CHARS: usize = 512;
/// The only sample rate allowed for `audio/pcm` audio.
pub const REALTIME_PCM_SAMPLE_RATE: i64 = 24000;

/// A Realtime request value outside a documented limit.
#[derive(Debug, Clone, PartialEq, Eq)]
pub enum CreateRealtimeSessionConstraintError {
    /// `audio.output.speed` is non-finite or outside `0.25..=1.5`.
    OutputSpeed { value: String, minimum: String, maximum: String },
    /// `truncation.retention_ratio` is non-finite or outside `0..=1`.
    RetentionRatio { value: String, minimum: String, maximum: String },
    /// `audio.input.turn_detection.idle_timeout_ms` is outside `5000..=30000`.
    IdleTimeout { actual: i64, minimum: i64, maximum: i64 },
    /// A present `audio.input.transcription.languages` is empty.
    EmptyTranscriptionLanguages,
    /// `expires_after.seconds` is outside `10..=7200`.
    ClientSecretExpiration { actual: i64, minimum: i64, maximum: i64 },
    /// A present client `event_id` exceeds 512 characters.
    EventId { actual: usize, maximum: usize },
    /// `truncation.token_limits.post_instructions` is below 0.
    PostInstructions { actual: i64, minimum: i64 },
    /// A present `audio/pcm` `rate` is not 24000.
    PcmRate { actual: i64, expected: i64 },
}

/// The outcome of the `event_id` length rule.
pub open spec fn event_id_check(event_id: Omittable<String>) -> Result<
    (),
    CreateRealtimeSessionConstraintError,
> {
    match event_id {
        Omittable::Value(s) => if s@.len() > MAX_REALTIME_EVENT_ID_CHARS {
            Err(
                CreateRealtimeSessionConstraintError::EventId {
                    actual: s@.len() as usize,
                    maximum: MAX_REALTIME_EVENT_ID_CHARS,
                },
            )
        } else {
            Ok(())
        },
        Omittable::Omitted => Ok(()),
    }
}

/// Checks that a present client `event_id` has at most 512 characters.
pub fn validate_omittable_event_id(event_id: &Omittable<String>) -> (r: Result<
    (),
    CreateRealtimeSessionConstraintError,
>)
    ensures
        r == event_id_check(*event_id),
{
    match event_id {
        Omittable::Value(s) => {
            let actual = s.as_str().unicode_len();
            if actual > MAX_REALTIME_EVENT_ID_CHARS {
                Err(
                    CreateRealtimeSessionConstraintError::EventId {
                        actual,
                        maximum: MAX_REALTIME_EVENT_ID_CHARS,
                    },
                )
            } else {
                Ok(())
            }
        },
        Omittable::Omitted => Ok(()),
    }
}

/// The outcome of the client-secret lifetime rule.
pub open spec fn expiration_seconds_check(seconds: Omittable<i64>) -> Result<
    (),
    CreateRealtimeSessionConstraintError,
> {
    match seconds {
        Omittable::Value(s) => if MIN_REALTIME_CLIENT_SECRET_SECONDS <= s
            <= MAX_REALTIME_CLIENT_SECRET_SECONDS {
            Ok(())
        } else {
            Err(
                CreateRealtimeSessionConstraintError::ClientSecretExpiration {
                    actual: s,
                    minimum: MIN_REALTIME_CLIENT_SECRET_SECONDS,
                    maximum: MAX_REALTIME_CLIENT_SECRET_SECONDS,
                },
            )
        },
        Omittable::Omitted => Ok(()),
    }
}

/// Checks that a present client-secret lifetime lies in `10..=7200`.
pub fn validate_expiration_seconds(seconds: &Omittable<i64>) -> (r: Result<
    (),
    CreateRealtimeSessionConstraintError,
>)
    ensures
        r == expiration_seconds_check(*seconds),
{
    match seconds {
        Omittable::Value(s) => {
            let s = *s;
            if MIN_REALTIME_CLIENT_SECRET_SECONDS <= s && s <= MAX_REALTIME_CLIENT_SECRET_SECONDS {
                Ok(())
            } else {
                Err(
                    CreateRealtimeSessionConstraintError::ClientSecretExpiration {
                        actual: s,
                        minimum: MIN_REALTIME_CLIENT_SECRET_SECONDS,
                        maximum: MAX_REALTIME_CLIENT_SECRET_SECONDS,
                    },
                )
            }
        },
        Omittable::Omitted => Ok(()),
    }
}

/// The `type` tag of a tagged Realtime value, or why there is none.
pub open spec fn discriminator_of(v: Json) -> Result<Seq<char>, Seq<char>> {
    match v {
        Json::Object(e) => match obj_get(e, "type"@) {
            Some(Json::Str(t)) => Ok(t),
            Some(_) => Err("tagged realtime object field `type` must be a string"@),
            None => Err("tagged realtime object is missing string field `type`"@),
        },
        _ => Err("tagged realtime value must be an object"@),
    }
}

/// Reads the `type` tag of a tagged Realtime object.
pub fn object_discriminator(value: &JsonValue) -> (r: Result<&str, &'static str>)
    ensures
        match r {
            Ok(t) => discriminator_of(value@) == Ok::<Seq<char>, Seq<char>>(t@),
            Err(m) => discriminator_of(value@) == Err::<Seq<char>, Seq<char>>(m@),
        },
{
    let r = match value {
        JsonValue::Object(o) => match o.get("type") {
            Some(JsonValue::String(t)) => Ok(t.as_str()),
            Some(_) => Err("tagged realtime object field `type` must be a string"),
            None => Err("tagged realtime object is missing string field `type`"),
        },
        _ => Err("tagged realtime value must be an object"),
    };
    proof {
        reveal_strlit("tagged realtime object field `type` must be a string");
        reveal_strlit("tagged realtime object is missing string field `type`");
        reveal_strlit("tagged realtime value must be an object");
    }
    r
}

/// A supplied value was not a valid tagged Realtime object.
#[derive(Debug, Clone, PartialEq, Eq)]
pub enum UnknownRealtimeObjectError {
    /// The value was not an object with a string `type` field.
    Invalid(&'static str),
}

/// A future tagged Realtime object with every member retained.
#[derive(Clone, Debug)]
pub struct UnknownRealtimeObject {
    discriminator: String,
    raw: JsonObject,
}

impl View for UnknownRealtimeObject {
    type V = (Seq<char>, Seq<(Seq<char>, Json)>);

    closed spec fn view(&self) -> (Seq<char>, Seq<(Seq<char>, Json)>) {
        (self.discriminator@, self.raw@)
    }
}

/// What [`UnknownRealtimeObject::from_value`] keeps of a value: its tag and
/// its members.
pub open spec fn retained_object(v: Json) -> Result<
    (Seq<char>, Seq<(Seq<char>, Json)>),
    Seq<char>,
> {
    match discriminator_of(v) {
        Ok(t) => match v {
            Json::Object(e) => Ok((t, e)),
            _ => Err("tagged realtime value must be an object"@),
        },
        Err(m) => Err(m),
    }
}

impl UnknownRealtimeObject {
    /// Checks and keeps an unknown tagged object.
    pub fn from_value(value: JsonValue) -> (r: Result<Self, UnknownRealtimeObjectError>)
        ensures
            match r {
                Ok(u) => retained_object(value@) == Ok::<
                    (Seq<char>, Seq<(Seq<char>, Json)>),
                    Seq<char>,
                >(u@),
                Err(UnknownRealtimeObjectError::Invalid(m)) => retained_object(value@) == Err::<
                    (Seq<char>, Seq<(Seq<char>, Json)>),
                    Seq<char>,
                >(m@),
            },
    {
        let d = match object_discriminator(&value) {
            Ok(t) => t.to_owned(),
            Err(m) => {
                return Err(UnknownRealtimeObjectError::Invalid(m));
            },
        };
        match value {
            JsonValue::Object(raw) => Ok(UnknownRealtimeObject { discriminator: d, raw }),
            _ => {
                proof {
                    reveal_strlit("tagged realtime value must be an object");
                }
                Err(UnknownRealtimeObjectError::Invalid("tagged realtime value must be an object"))
            },
        }
    }

    /// The exact future tag.
    pub fn discriminator(&self) -> (r: &str)
        ensures
            r@ == self@.0,
    {
        self.discriminator.as_str()
    }

    /// The complete retained object, `type` included.
    pub fn raw(&self) -> (r: &JsonObject)
        ensures
            r@ == self@.1,
    {
        &self.raw
    }

    /// The retained object as a JSON value.
    pub fn into_value(self) -> (r: JsonValue)
        ensures
            r@ == Json::Object(self@.1),
    {
        JsonValue::Object(self.raw)
    }

    /// Number of retained members.
    pub fn field_count(&self) -> (r: usize)
        ensures
            r == self@.1.len(),
    {
        self.raw.len()
    }
}

/// An unknown tagged object gives back exactly the value it was made from.
pub proof fn law_unknown_object_lossless(v: Json)
    requires
        retained_object(v) is Ok,
    ensures
        Json::Object(retained_object(v)->Ok_0.1) == v,
        discriminator_of(v) == Ok::<Seq<char>, Seq<char>>(retained_object(v)->Ok_0.0),
{
}

/// Base64-encoded audio bytes carried by Realtime JSON events.
pub struct RealtimeAudio(Vec<u8>);

impl View for RealtimeAudio {
    type V = Seq<u8>;

    closed spec fn view(&self) -> Seq<u8> {
        self.0@
    }
}

impl Default for RealtimeAudio {
    fn default() -> (r: Self)
        ensures
            r@ == Seq::<u8>::empty(),
    {
        RealtimeAudio(Vec::new())
    }
}

impl RealtimeAudio {
    /// Stores raw audio bytes; they travel base64-encoded.
    pub fn new(bytes: Vec<u8>) -> (r: Self)
        ensures
            r@ == bytes@,
    {
        RealtimeAudio(bytes)
    }

    /// The decoded audio bytes.
    pub fn as_bytes(&self) -> (r: &[u8])
        ensures
            r@ == self@,
    {
        self.0.as_slice()
    }

    /// Gives back the decoded bytes.
    pub fn into_bytes(self) -> (r: Vec<u8>)
        ensures
            r@ == self@,
    {
        self.0
    }

    /// Number of decoded bytes.
    pub fn byte_len(&self) -> (r: usize)
        ensures
            r == self@.len(),
    {
        self.0.len()
    }

    /// The standard base64 text sent on the wire; decoding it gives back
    /// these bytes.
    pub fn to_base64(&self) -> (r: String)
        ensures
            r@ == base64_encoded(self@),
            base64_decoded(r@) == Ok::<Seq<u8>, Base64DecodeError>(self@),
    {
        encode_base64(self.0.as_slice())
    }

    /// Decodes the base64 text received on the wire.
    pub fn from_base64(encoded: &str) -> (r: Result<Self, Base64DecodeError>)
        ensures
            match r {
                Ok(a) => base64_decoded(encoded@) == Ok::<Seq<u8>, Base64DecodeError>(a@),
                Err(e) => base64_decoded(encoded@) == Err::<Seq<u8>, Base64DecodeError>(e),
            },
    {
        match decode_base64(encoded) {
            Ok(v) => Ok(RealtimeAudio(v)),
            Err(e) => Err(e),
        }
    }
}

/// Sample rate of `audio/pcm` audio: the one allowed rate, or another
/// integer kept as received.
#[derive(Debug, Clone, Copy, PartialEq, Eq, Hash, Structural)]
pub enum RealtimePcmRate {
    /// 24kHz.
    Rate24000,
    /// A rate added by the service after this crate was released.
    Unknown(i64),
}

impl RealtimePcmRate {
    /// The rate a wire integer stands for.
    pub open spec fn parse(value: i64) -> Self {
        if value == REALTIME_PCM_SAMPLE_RATE {
            RealtimePcmRate::Rate24000
        } else {
            RealtimePcmRate::Unknown(value)
        }
    }

    /// The wire integer of a rate.
    pub open spec fn wire(self) -> i64 {
        match self {
            RealtimePcmRate::Rate24000 => REALTIME_PCM_SAMPLE_RATE,
            RealtimePcmRate::Unknown(v) => v,
        }
    }

    /// Parses a wire value, keeping unknown integers verbatim.
    pub fn from_raw(value: i64) -> (r: Self)
        ensures
            r == Self::parse(value),
    {
        if value == REALTIME_PCM_SAMPLE_RATE {
            RealtimePcmRate::Rate24000
        } else {
            RealtimePcmRate::Unknown(value)
        }
    }

    /// The exact integer used on the wire.
    pub fn as_i64(&self) -> (r: i64)
        ensures
            r == self.wire(),
    {
        match self {
            RealtimePcmRate::Rate24000 => REALTIME_PCM_SAMPLE_RATE,
            RealtimePcmRate::Unknown(v) => *v,
        }
    }

    /// Whether this crate knows the wire value.
    pub fn is_known(&self) -> (r: bool)
        ensures
            r == !(self is Unknown),
    {
        match self {
            RealtimePcmRate::Unknown(_) => false,
            RealtimePcmRate::Rate24000 => true,
        }
    }

    /// The raw value, only when it is unknown to this crate.
    pub fn unknown_value(&self) -> (r: Option<i64>)
        ensures
            match self {
                RealtimePcmRate::Unknown(v) => r == Some(*v),
                RealtimePcmRate::Rate24000 => r is None,
            },
    {
        match self {
            RealtimePcmRate::Unknown(v) => Some(*v),
            RealtimePcmRate::Rate24000 => None,
        }
    }
}

/// A parsed rate writes back the integer it was read from, and it is known
/// exactly when that integer is 24000.
pub proof fn law_pcm_rate_round_trip(value: i64)
    ensures
        RealtimePcmRate::parse(value).wire() == value,
        !(RealtimePcmRate::parse(value) is Unknown) <==> value == REALTIME_PCM_SAMPLE_RATE,
{
}


/// `audio/pcm` audio at an optional sample rate.
#[derive(Clone, Debug)]
pub struct RealtimePcmAudioFormat {
    pub rate: Omittable<RealtimePcmRate>,
    pub extra: ExtraFields,
}

impl RealtimePcmAudioFormat {
    /// 24kHz PCM, the format the service uses.
    pub fn pcm24k() -> (r: Self)
        ensures
            r.rate == Omittable::Value(RealtimePcmRate::Rate24000),
            r.extra@ == Seq::<(Seq<char>, Json)>::empty(),
    {
        RealtimePcmAudioFormat { rate: Omittable::Value(RealtimePcmRate::Rate24000), extra: ExtraFields::new() }
    }

    /// Members not modelled here, kept as received.
    pub fn extra_fields(&self) -> (r: &ExtraFields)
        ensures
            r@ == self.extra@,
    {
        &self.extra
    }
}

/// G.711 μ-law audio (`audio/pcmu`).
#[derive(Clone, Debug)]
pub struct RealtimePcmuAudioFormat {
    pub extra: ExtraFields,
}

impl Default for RealtimePcmuAudioFormat {
    fn default() -> (r: Self)
        ensures
            r.extra@ == Seq::<(Seq<char>, Json)>::empty(),
    {
        RealtimePcmuAudioFormat { extra: ExtraFields::new() }
    }
}

impl RealtimePcmuAudioFormat {
    /// Members not modelled here, kept as received.
    pub fn extra_fields(&self) -> (r: &ExtraFields)
        ensures
            r@ == self.extra@,
    {
        &self.extra
    }
}

/// G.711 A-law audio (`audio/pcma`).
#[derive(Clone, Debug)]
pub struct RealtimePcmaAudioFormat {
    pub extra: ExtraFields,
}

impl Default for RealtimePcmaAudioFormat {
    fn default() -> (r: Self)
        ensures
            r.extra@ == Seq::<(Seq<char>, Json)>::empty(),
    {
        RealtimePcmaAudioFormat { extra: ExtraFields::new() }
    }
}

impl RealtimePcmaAudioFormat {
    /// Members not modelled here, kept as received.
    pub fn extra_fields(&self) -> (r: &ExtraFields)
        ensures
            r@ == self.extra@,
    {
        &self.extra
    }
}

/// Audio format of a Realtime session, by its `type` tag.
#[derive(Clone, Debug)]
pub enum RealtimeAudioFormat {
    /// `audio/pcm`.
    Pcm(RealtimePcmAudioFormat),
    /// `audio/pcmu`.
    Pcmu(RealtimePcmuAudioFormat),
    /// `audio/pcma`.
    Pcma(RealtimePcmaAudioFormat),
    /// A future format, kept whole.
    Unknown(UnknownRealtimeObject),
}

/// Which format a `type` tag selects.
#[derive(Clone)]
pub enum RealtimeAudioFormatKind {
    Pcm,
    Pcmu,
    Pcma,
    Unknown,
}

/// Each `type` tag of a Realtime audio format selects its format: `audio/pcm`,
/// `audio/pcmu` and `audio/pcma`; any other tag is kept whole.
pub proof fn law_audio_format_tags_select_schema_variants(tag: Seq<char>)
    ensures
        tag == "audio/pcm"@ ==> RealtimeAudioFormatKind::of_tag(tag) == RealtimeAudioFormatKind::Pcm,
        tag == "audio/pcmu"@ ==> RealtimeAudioFormatKind::of_tag(tag) == RealtimeAudioFormatKind::Pcmu,
        tag == "audio/pcma"@ ==> RealtimeAudioFormatKind::of_tag(tag) == RealtimeAudioFormatKind::Pcma,
        !(tag == "audio/pcm"@ || tag == "audio/pcmu"@ || tag == "audio/pcma"@) ==> RealtimeAudioFormatKind::of_tag(tag) == RealtimeAudioFormatKind::Unknown,
{
    reveal_strlit("audio/pcm");
    reveal_strlit("audio/pcmu");
    reveal_strlit("audio/pcma");
    assert("audio/pcm"@.len() == 9);
    assert("audio/pcmu"@.len() == 10);
    assert("audio/pcma"@.len() == 10);
    assert("audio/pcmu"@[9] != "audio/pcma"@[9]);
}

impl RealtimeAudioFormatKind {
    /// The kind a tag selects.
    pub open spec fn of_tag(tag: Seq<char>) -> Self {
        if tag == "audio/pcm"@ {
            RealtimeAudioFormatKind::Pcm
        } else if tag == "audio/pcmu"@ {
            RealtimeAudioFormatKind::Pcmu
        } else if tag == "audio/pcma"@ {
            RealtimeAudioFormatKind::Pcma
        } else {
            RealtimeAudioFormatKind::Unknown
        }
    }

    /// The kind a decoded format's `type` tag selects.
    pub fn from_tag(tag: &str) -> (r: Self)
        ensures
            r == Self::of_tag(tag@),
    {
        proof {
            reveal_strlit("audio/pcm");
            reveal_strlit("audio/pcmu");
            reveal_strlit("audio/pcma");
        }
        if chars_eq(tag, "audio/pcm") {
            RealtimeAudioFormatKind::Pcm
        } else if chars_eq(tag, "audio/pcmu") {
            RealtimeAudioFormatKind::Pcmu
        } else if chars_eq(tag, "audio/pcma") {
            RealtimeAudioFormatKind::Pcma
        } else {
            RealtimeAudioFormatKind::Unknown
        }
    }
}

/// The outcome of the PCM sample-rate rule for one format.
pub open spec fn audio_format_check(format: RealtimeAudioFormat) -> Result<
    (),
    CreateRealtimeSessionConstraintError,
> {
    match format {
        RealtimeAudioFormat::Pcm(pcm) => match pcm.rate {
            Omittable::Value(RealtimePcmRate::Unknown(actual)) => Err(
                CreateRealtimeSessionConstraintError::PcmRate {
                    actual,
                    expected: REALTIME_PCM_SAMPLE_RATE,
                },
            ),
            _ => Ok(()),
        },
        _ => Ok(()),
    }
}

/// Rejects an `audio/pcm` format whose present rate is not 24000.
pub fn validate_realtime_audio_format(format: &RealtimeAudioFormat) -> (r: Result<
    (),
    CreateRealtimeSessionConstraintError,
>)
    ensures
        r == audio_format_check(*format),
{
    if let RealtimeAudioFormat::Pcm(pcm) = format {
        if let Omittable::Value(rate) = &pcm.rate {
            if let Some(actual) = rate.unknown_value() {
                return Err(
                    CreateRealtimeSessionConstraintError::PcmRate {
                        actual,
                        expected: REALTIME_PCM_SAMPLE_RATE,
                    },
                );
            }
        }
    }
    Ok(())
}

/// Reference to a custom voice.
#[derive(Clone, Debug)]
pub struct RealtimeCustomVoice {
    pub id: String,
    pub extra: ExtraFields,
}

impl RealtimeCustomVoice {
    /// A custom voice reference.
    pub fn new(id: &str) -> (r: Self)
        ensures
            r.id@ == id@,
            r.extra@ == Seq::<(Seq<char>, Json)>::empty(),
    {
        RealtimeCustomVoice { id: id.to_owned(), extra: ExtraFields::new() }
    }

    /// Members not modelled here, kept as received.
    pub fn extra_fields(&self) -> (r: &ExtraFields)
        ensures
            r@ == self.extra@,
    {
        &self.extra
    }
}

/// A built-in voice name or a custom voice reference.
#[derive(Clone, Debug)]
pub enum RealtimeVoice {
    BuiltIn(RealtimeVoiceName),
    Custom(RealtimeCustomVoice),
}

/// Input-audio transcription settings.
#[derive(Clone, Debug)]
pub struct RealtimeAudioTranscription {
    pub model: Omittable<String>,
    pub language: Omittable<Nullable<String>>,
    pub languages: Omittable<Vec<String>>,
    pub keywords: Omittable<Vec<String>>,
    pub prompt: Omittable<String>,
    pub delay: Omittable<RealtimeTranscriptionDelay>,
    pub extra: ExtraFields,
}

impl Default for RealtimeAudioTranscription {
    fn default() -> (r: Self)
        ensures
            r.model is Omitted,
            r.language is Omitted,
            r.languages is Omitted,
            r.keywords is Omitted,
            r.prompt is Omitted,
            r.delay is Omitted,
            r.extra@ == Seq::<(Seq<char>, Json)>::empty(),
    {
        RealtimeAudioTranscription {
            model: Omittable::Omitted,
            language: Omittable::Omitted,
            languages: Omittable::Omitted,
            keywords: Omittable::Omitted,
            prompt: Omittable::Omitted,
            delay: Omittable::Omitted,
            extra: ExtraFields::new(),
        }
    }
}

impl RealtimeAudioTranscription {
    /// Members not modelled here, kept as received.
    pub fn extra_fields(&self) -> (r: &ExtraFields)
        ensures
            r@ == self.extra@,
    {
        &self.extra
    }
}

/// Noise reduction of input audio.
#[derive(Clone, Debug)]
pub struct RealtimeNoiseReduction {
    pub kind: Omittable<RealtimeNoiseReductionType>,
    pub extra: ExtraFields,
}

impl Default for RealtimeNoiseReduction {
    fn default() -> (r: Self)
        ensures
            r.kind is Omitted,
            r.extra@ == Seq::<(Seq<char>, Json)>::empty(),
    {
        RealtimeNoiseReduction { kind: Omittable::Omitted, extra: ExtraFields::new() }
    }
}

impl RealtimeNoiseReduction {
    /// Members not modelled here, kept as received.
    pub fn extra_fields(&self) -> (r: &ExtraFields)
        ensures
            r@ == self.extra@,
    {
        &self.extra
    }
}

/// Server voice-activity detection (`server_vad`).
#[derive(Clone, Debug)]
pub struct RealtimeServerVad {
    /// Activation threshold, as its JSON number text.
    pub threshold: Omittable<String>,
    pub prefix_padding_ms: Omittable<i64>,
    pub silence_duration_ms: Omittable<i64>,
    pub create_response: Omittable<bool>,
    pub interrupt_response: Omittable<bool>,
    pub idle_timeout_ms: Omittable<Nullable<i64>>,
    pub extra: ExtraFields,
}

impl Default for RealtimeServerVad {
    fn default() -> (r: Self)
        ensures
            r.threshold is Omitted,
            r.prefix_padding_ms is Omitted,
            r.silence_duration_ms is Omitted,
            r.create_response is Omitted,
            r.interrupt_response is Omitted,
            r.idle_timeout_ms is Omitted,
            r.extra@ == Seq::<(Seq<char>, Json)>::empty(),
    {
        RealtimeServerVad {
            threshold: Omittable::Omitted,
            prefix_padding_ms: Omittable::Omitted,
            silence_duration_ms: Omittable::Omitted,
            create_response: Omittable::Omitted,
            interrupt_response: Omittable::Omitted,
            idle_timeout_ms: Omittable::Omitted,
            extra: ExtraFields::new(),
        }
    }
}

impl RealtimeServerVad {
    /// Members not modelled here, kept as received.
    pub fn extra_fields(&self) -> (r: &ExtraFields)
        ensures
            r@ == self.extra@,
    {
        &self.extra
    }
}

/// Semantic voice-activity detection (`semantic_vad`).
#[derive(Clone, Debug)]
pub struct RealtimeSemanticVad {
    pub eagerness: Omittable<RealtimeVadEagerness>,
    pub create_response: Omittable<bool>,
    pub interrupt_response: Omittable<bool>,
    pub extra: ExtraFields,
}

impl Default for RealtimeSemanticVad {
    fn default() -> (r: Self)
        ensures
            r.eagerness is Omitted,
            r.create_response is Omitted,
            r.interrupt_response is Omitted,
            r.extra@ == Seq::<(Seq<char>, Json)>::empty(),
    {
        RealtimeSemanticVad {
            eagerness: Omittable::Omitted,
            create_response: Omittable::Omitted,
            interrupt_response: Omittable::Omitted,
            extra: ExtraFields::new(),
        }
    }
}

impl RealtimeSemanticVad {
    /// Members not modelled here, kept as received.
    pub fn extra_fields(&self) -> (r: &ExtraFields)
        ensures
            r@ == self.extra@,
    {
        &self.extra
    }
}

/// Turn detection; an explicit `null` turns it off.
#[derive(Clone, Debug)]
pub enum RealtimeTurnDetection {
    ServerVad(RealtimeServerVad),
    SemanticVad(RealtimeSemanticVad),
    Unknown(UnknownRealtimeObject),
}

/// Input-audio settings of a Realtime session.
#[derive(Clone, Debug)]
pub struct RealtimeAudioInputConfig {
    pub format: Omittable<RealtimeAudioFormat>,
    pub transcription: Omittable<Nullable<RealtimeAudioTranscription>>,
    pub noise_reduction: Omittable<Nullable<RealtimeNoiseReduction>>,
    pub turn_detection: Omittable<Nullable<RealtimeTurnDetection>>,
    pub extra: ExtraFields,
}

impl Default for RealtimeAudioInputConfig {
    fn default() -> (r: Self)
        ensures
            r.format is Omitted,
            r.transcription is Omitted,
            r.noise_reduction is Omitted,
            r.turn_detection is Omitted,
            r.extra@ == Seq::<(Seq<char>, Json)>::empty(),
    {
        RealtimeAudioInputConfig {
            format: Omittable::Omitted,
            transcription: Omittable::Omitted,
            noise_reduction: Omittable::Omitted,
            turn_detection: Omittable::Omitted,
            extra: ExtraFields::new(),
        }
    }
}

impl RealtimeAudioInputConfig {
    /// Members not modelled here, kept as received.
    pub fn extra_fields(&self) -> (r: &ExtraFields)
        ensures
            r@ == self.extra@,
    {
        &self.extra
    }
}

/// The outcome of the input-audio rules, checked in order: the PCM rate of
/// the format, a present but empty language list, the Server VAD idle
/// timeout range.
pub open spec fn audio_input_check(input: RealtimeAudioInputConfig) -> Result<
    (),
    CreateRealtimeSessionConstraintError,
> {
    let format_check = match input.format {
        Omittable::Value(f) => audio_format_check(f),
        Omittable::Omitted => Ok(()),
    };
    if format_check is Err {
        format_check
    } else if (input.transcription matches Omittable::Value(Nullable::Value(t)) && (t.languages matches Omittable::Value(l) && l@.len() == 0)) {
        Err(CreateRealtimeSessionConstraintError::EmptyTranscriptionLanguages)
    } else {
        match input.turn_detection {
            Omittable::Value(Nullable::Value(RealtimeTurnDetection::ServerVad(vad))) => match vad.idle_timeout_ms {
                Omittable::Value(Nullable::Value(timeout)) => if MIN_REALTIME_IDLE_TIMEOUT_MS <= timeout
                    <= MAX_REALTIME_IDLE_TIMEOUT_MS {
                    Ok(())
                } else {
                    Err(
                        CreateRealtimeSessionConstraintError::IdleTimeout {
                            actual: timeout,
                            minimum: MIN_REALTIME_IDLE_TIMEOUT_MS,
                            maximum: MAX_REALTIME_IDLE_TIMEOUT_MS,
                        },
                    )
                },
                _ => Ok(()),
            },
            _ => Ok(()),
        }
    }
}

/// Checks the input-audio limits: the PCM rate, a non-empty language list,
/// the Server VAD idle timeout in `5000..=30000`.
pub fn validate_realtime_audio_input(input: &RealtimeAudioInputConfig) -> (r: Result<
    (),
    CreateRealtimeSessionConstraintError,
>)
    ensures
        r == audio_input_check(*input),
{
    if let Omittable::Value(format) = &input.format {
        let c = validate_realtime_audio_format(format);
        if c.is_err() {
            return c;
        }
    }
    if let Omittable::Value(Nullable::Value(transcription)) = &input.transcription {
        if let Omittable::Value(languages) = &transcription.languages {
            if languages.len() == 0 {
                return Err(CreateRealtimeSessionConstraintError::EmptyTranscriptionLanguages);
            }
        }
    }
    if let Omittable::Value(Nullable::Value(RealtimeTurnDetection::ServerVad(vad))) = &input.turn_detection {
        if let Omittable::Value(Nullable::Value(timeout)) = vad.idle_timeout_ms {
            if !(MIN_REALTIME_IDLE_TIMEOUT_MS <= timeout && timeout <= MAX_REALTIME_IDLE_TIMEOUT_MS) {
                return Err(
                    CreateRealtimeSessionConstraintError::IdleTimeout {
                        actual: timeout,
                        minimum: MIN_REALTIME_IDLE_TIMEOUT_MS,
                        maximum: MAX_REALTIME_IDLE_TIMEOUT_MS,
                    },
                );
            }
        }
    }
    Ok(())
}

/// The outcome of the session limits, checked in order: input audio, the
/// output format, the output speed, the retention ratio, the
/// post-instructions token floor.  `output_speed` and `retention_ratio` are
/// the outcomes of the two floating-point range checks, present when the
/// session carries the value; `post_instructions` is present when the
/// retention-ratio truncation sets it.
pub open spec fn session_limits_check(
    input: Option<RealtimeAudioInputConfig>,
    output_format: Option<RealtimeAudioFormat>,
    output_speed: Option<Result<(), CreateRealtimeSessionConstraintError>>,
    retention_ratio: Option<Result<(), CreateRealtimeSessionConstraintError>>,
    post_instructions: Option<i64>,
) -> Result<(), CreateRealtimeSessionConstraintError> {
    if input matches Some(i) && audio_input_check(i) is Err {
        audio_input_check(input->Some_0)
    } else if output_format matches Some(f) && audio_format_check(f) is Err {
        audio_format_check(output_format->Some_0)
    } else if output_speed matches Some(c) && c is Err {
        output_speed->Some_0
    } else if retention_ratio matches Some(c) && c is Err {
        retention_ratio->Some_0
    } else if post_instructions matches Some(p) && p < MIN_REALTIME_POST_INSTRUCTIONS {
        Err(
            CreateRealtimeSessionConstraintError::PostInstructions {
                actual: post_instructions->Some_0,
                minimum: MIN_REALTIME_POST_INSTRUCTIONS,
            },
        )
    } else {
        Ok(())
    }
}

/// Decides the session limits from the parts a Realtime session request
/// carries (see [`session_limits_check`]); the caller makes the two
/// floating-point range checks and hands in their outcomes.
pub fn validate_session_limits(
    input: Option<&RealtimeAudioInputConfig>,
    output_format: Option<&RealtimeAudioFormat>,
    output_speed: Option<Result<(), CreateRealtimeSessionConstraintError>>,
    retention_ratio: Option<Result<(), CreateRealtimeSessionConstraintError>>,
    post_instructions: Option<i64>,
) -> (r: Result<(), CreateRealtimeSessionConstraintError>)
    ensures
        r == session_limits_check(
            match input {
                Some(i) => Some(*i),
                None => None,
            },
            match output_format {
                Some(f) => Some(*f),
                None => None,
            },
            output_speed,
            retention_ratio,
            post_instructions,
        ),
{
    if let Some(i) = input {
        let c = validate_realtime_audio_input(i);
        if c.is_err() {
            return c;
        }
    }
    if let Some(f) = output_format {
        let c = validate_realtime_audio_format(f);
        if c.is_err() {
            return c;
        }
    }
    if let Some(c) = output_speed {
        if c.is_err() {
            return c;
        }
    }
    if let Some(c) = retention_ratio {
        if c.is_err() {
            return c;
        }
    }
    if let Some(p) = post_instructions {
        if p < MIN_REALTIME_POST_INSTRUCTIONS {
            return Err(
                CreateRealtimeSessionConstraintError::PostInstructions {
                    actual: p,
                    minimum: MIN_REALTIME_POST_INSTRUCTIONS,
                },
            );
        }
    }
    Ok(())
}

/// Decides the limits of a client-secret request: the lifetime range
/// first, then the outcome of the nested session's own check.
pub fn validate_client_secret_limits(
    seconds: Omittable<i64>,
    session: Result<(), CreateRealtimeSessionConstraintError>,
) -> (r: Result<(), CreateRealtimeSessionConstraintError>)
    ensures
        r == (if expiration_seconds_check(seconds) is Err {
            expiration_seconds_check(seconds)
        } else {
            session
        }),
{
    let c = validate_expiration_seconds(&seconds);
    if c.is_err() {
        c
    } else {
        session
    }
}

impl Clone for RealtimeAudio {
    /// A copy holding the same bytes.
    fn clone(&self) -> (r: Self)
        ensures
            r@ == self@,
    {
        let r = RealtimeAudio(self.0.clone());
        assert(r@ =~= self@);
        r
    }
}


/// The documented limits of the Realtime API.
pub proof fn law_realtime_limits()
    ensures
        MIN_REALTIME_CLIENT_SECRET_SECONDS == 10,
        MAX_REALTIME_CLIENT_SECRET_SECONDS == 7200,
        MIN_REALTIME_POST_INSTRUCTIONS == 0,
        MIN_REALTIME_IDLE_TIMEOUT_MS == 5000,
        MAX_REALTIME_IDLE_TIMEOUT_MS == 30000,
        MAX_REALTIME_EVENT_ID_CHARS == 512,
        REALTIME_PCM_SAMPLE_RATE == 24000,
{
}

} // verus!
