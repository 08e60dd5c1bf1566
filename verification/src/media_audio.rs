//! Speech, audio transcription and translation requests: the speech
//! response mode, multipart uploads with text fields, and the known-speaker
//! samples of diarized transcription.
use vstd::prelude::*;
use core::marker::PhantomData;
use crate::files::ReplayableMultipartSource;
use crate::json::JsonObject;
use crate::media::{
    MediaNonStreaming, MediaStreamMode, MediaStreaming, SpeechResponseFormat, SpeechStreamFormat,
    SpeechVoice, base64_encoded, encode_base64,
};
use crate::scalar::ModelId;
use crate::text::{chars_eq, concat_str};
use crate::wire::{Nullable, Omittable};

verus! {

/// Requested transcription output format.
#[derive(Debug, Clone)]
pub enum TranscriptionResponseFormat {
    /// `json`.
    Json,
    /// `text`.
    Text,
    /// `srt`.
    Srt,
    /// `verbose_json`.
    VerboseJson,
    /// `vtt`.
    Vtt,
    /// `diarized_json`.
    DiarizedJson,
    /// A value added by the service after this crate was released.
    Unknown(String),
}

/// Each variant of [`TranscriptionResponseFormat`] stands for the wire value the API pairs
/// with it, and those values are exactly the ones known.
pub proof fn law_transcription_response_format_wire_values(value: Seq<char>)
    ensures
        TranscriptionResponseFormat::Json.wire() == "json"@,
        TranscriptionResponseFormat::Text.wire() == "text"@,
        TranscriptionResponseFormat::Srt.wire() == "srt"@,
        TranscriptionResponseFormat::VerboseJson.wire() == "verbose_json"@,
        TranscriptionResponseFormat::Vtt.wire() == "vtt"@,
        TranscriptionResponseFormat::DiarizedJson.wire() == "diarized_json"@,
        TranscriptionResponseFormat::is_known_wire(value) <==> (value == "json"@ || value == "text"@ || value == "srt"@ || value == "verbose_json"@ || value == "vtt"@ || value == "diarized_json"@),
{
}

impl TranscriptionResponseFormat {
    /// The exact string used on the wire.
    pub open spec fn wire(&self) -> Seq<char> {
        match self {
            TranscriptionResponseFormat::Json => "json"@,
            TranscriptionResponseFormat::Text => "text"@,
            TranscriptionResponseFormat::Srt => "srt"@,
            TranscriptionResponseFormat::VerboseJson => "verbose_json"@,
            TranscriptionResponseFormat::Vtt => "vtt"@,
            TranscriptionResponseFormat::DiarizedJson => "diarized_json"@,
            TranscriptionResponseFormat::Unknown(s) => s@,
        }
    }

    /// Whether `value` is one of the wire values this crate knows.
    pub open spec fn is_known_wire(value: Seq<char>) -> bool {
        value == "json"@ || value == "text"@ || value == "srt"@ || value == "verbose_json"@ || value == "vtt"@ || value == "diarized_json"@
    }

    /// Parses a wire value while retaining unknown strings verbatim.
    pub fn from_raw(value: &str) -> (r: Self)
        ensures
            r.wire() == value@,
            (r is Unknown) == !Self::is_known_wire(value@),
    {
        if chars_eq(value, "json") {
            TranscriptionResponseFormat::Json
        } else if chars_eq(value, "text") {
            TranscriptionResponseFormat::Text
        } else if chars_eq(value, "srt") {
            TranscriptionResponseFormat::Srt
        } else if chars_eq(value, "verbose_json") {
            TranscriptionResponseFormat::VerboseJson
        } else if chars_eq(value, "vtt") {
            TranscriptionResponseFormat::Vtt
        } else if chars_eq(value, "diarized_json") {
            TranscriptionResponseFormat::DiarizedJson
        } else {
            TranscriptionResponseFormat::Unknown(value.to_owned())
        }
    }

    /// The exact string used on the wire.
    pub fn as_str(&self) -> (r: &str)
        ensures
            r@ == self.wire(),
    {
        match self {
            TranscriptionResponseFormat::Json => "json",
            TranscriptionResponseFormat::Text => "text",
            TranscriptionResponseFormat::Srt => "srt",
            TranscriptionResponseFormat::VerboseJson => "verbose_json",
            TranscriptionResponseFormat::Vtt => "vtt",
            TranscriptionResponseFormat::DiarizedJson => "diarized_json",
            TranscriptionResponseFormat::Unknown(s) => s.as_str(),
        }
    }

    /// Whether this crate knows the wire value.
    pub fn is_known(&self) -> (r: bool)
        ensures
            r == !(self is Unknown),
    {
        match self {
            TranscriptionResponseFormat::Unknown(_) => false,
            _ => true,
        }
    }

    /// The raw value, only when it is unknown to this crate.
    pub fn unknown_value(&self) -> (r: Option<&str>)
        ensures
            match self {
                TranscriptionResponseFormat::Unknown(s) => r matches Some(x) && x@ == s@,
                _ => r is None,
            },
    {
        match self {
            TranscriptionResponseFormat::Unknown(s) => Some(s.as_str()),
            _ => None,
        }
    }
}

/// Requested translation output format.
#[derive(Debug, Clone)]
pub enum TranslationResponseFormat {
    /// `json`.
    Json,
    /// `text`.
    Text,
    /// `srt`.
    Srt,
    /// `verbose_json`.
    VerboseJson,
    /// `vtt`.
    Vtt,
    /// A value added by the service after this crate was released.
    Unknown(String),
}

/// Each variant of [`TranslationResponseFormat`] stands for the wire value the API pairs
/// with it, and those values are exactly the ones known.
pub proof fn law_translation_response_format_wire_values(value: Seq<char>)
    ensures
        TranslationResponseFormat::Json.wire() == "json"@,
        TranslationResponseFormat::Text.wire() == "text"@,
        TranslationResponseFormat::Srt.wire() == "srt"@,
        TranslationResponseFormat::VerboseJson.wire() == "verbose_json"@,
        TranslationResponseFormat::Vtt.wire() == "vtt"@,
        TranslationResponseFormat::is_known_wire(value) <==> (value == "json"@ || value == "text"@ || value == "srt"@ || value == "verbose_json"@ || value == "vtt"@),
{
}

impl TranslationResponseFormat {
    /// The exact string used on the wire.
    pub open spec fn wire(&self) -> Seq<char> {
        match self {
            TranslationResponseFormat::Json => "json"@,
            TranslationResponseFormat::Text => "text"@,
            TranslationResponseFormat::Srt => "srt"@,
            TranslationResponseFormat::VerboseJson => "verbose_json"@,
            TranslationResponseFormat::Vtt => "vtt"@,
            TranslationResponseFormat::Unknown(s) => s@,
        }
    }

    /// Whether `value` is one of the wire values this crate knows.
    pub open spec fn is_known_wire(value: Seq<char>) -> bool {
        value == "json"@ || value == "text"@ || value == "srt"@ || value == "verbose_json"@ || value == "vtt"@
    }

    /// Parses a wire value while retaining unknown strings verbatim.
    pub fn from_raw(value: &str) -> (r: Self)
        ensures
            r.wire() == value@,
            (r is Unknown) == !Self::is_known_wire(value@),
    {
        if chars_eq(value, "json") {
            TranslationResponseFormat::Json
        } else if chars_eq(value, "text") {
            TranslationResponseFormat::Text
        } else if chars_eq(value, "srt") {
            TranslationResponseFormat::Srt
        } else if chars_eq(value, "verbose_json") {
            TranslationResponseFormat::VerboseJson
        } else if chars_eq(value, "vtt") {
            TranslationResponseFormat::Vtt
        } else {
            TranslationResponseFormat::Unknown(value.to_owned())
        }
    }

    /// The exact string used on the wire.
    pub fn as_str(&self) -> (r: &str)
        ensures
            r@ == self.wire(),
    {
        match self {
            TranslationResponseFormat::Json => "json",
            TranslationResponseFormat::Text => "text",
            TranslationResponseFormat::Srt => "srt",
            TranslationResponseFormat::VerboseJson => "verbose_json",
            TranslationResponseFormat::Vtt => "vtt",
            TranslationResponseFormat::Unknown(s) => s.as_str(),
        }
    }

    /// Whether this crate knows the wire value.
    pub fn is_known(&self) -> (r: bool)
        ensures
            r == !(self is Unknown),
    {
        match self {
            TranslationResponseFormat::Unknown(_) => false,
            _ => true,
        }
    }

    /// The raw value, only when it is unknown to this crate.
    pub fn unknown_value(&self) -> (r: Option<&str>)
        ensures
            match self {
                TranslationResponseFormat::Unknown(s) => r matches Some(x) && x@ == s@,
                _ => r is None,
            },
    {
        match self {
            TranslationResponseFormat::Unknown(s) => Some(s.as_str()),
            _ => None,
        }
    }
}

/// Optional information included with a transcription.
#[derive(Debug, Clone)]
pub enum TranscriptionInclude {
    /// `logprobs`.
    Logprobs,
    /// A value added by the service after this crate was released.
    Unknown(String),
}

/// Each variant of [`TranscriptionInclude`] stands for the wire value the API pairs
/// with it, and those values are exactly the ones known.
pub proof fn law_transcription_include_wire_values(value: Seq<char>)
    ensures
        TranscriptionInclude::Logprobs.wire() == "logprobs"@,
        TranscriptionInclude::is_known_wire(value) <==> (value == "logprobs"@),
{
}

impl TranscriptionInclude {
    /// The exact string used on the wire.
    pub open spec fn wire(&self) -> Seq<char> {
        match self {
            TranscriptionInclude::Logprobs => "logprobs"@,
            TranscriptionInclude::Unknown(s) => s@,
        }
    }

    /// Whether `value` is one of the wire values this crate knows.
    pub open spec fn is_known_wire(value: Seq<char>) -> bool {
        value == "logprobs"@
    }

    /// Parses a wire value while retaining unknown strings verbatim.
    pub fn from_raw(value: &str) -> (r: Self)
        ensures
            r.wire() == value@,
            (r is Unknown) == !Self::is_known_wire(value@),
    {
        if chars_eq(value, "logprobs") {
            TranscriptionInclude::Logprobs
        } else {
            TranscriptionInclude::Unknown(value.to_owned())
        }
    }

    /// The exact string used on the wire.
    pub fn as_str(&self) -> (r: &str)
        ensures
            r@ == self.wire(),
    {
        match self {
            TranscriptionInclude::Logprobs => "logprobs",
            TranscriptionInclude::Unknown(s) => s.as_str(),
        }
    }

    /// Whether this crate knows the wire value.
    pub fn is_known(&self) -> (r: bool)
        ensures
            r == !(self is Unknown),
    {
        match self {
            TranscriptionInclude::Unknown(_) => false,
            _ => true,
        }
    }

    /// The raw value, only when it is unknown to this crate.
    pub fn unknown_value(&self) -> (r: Option<&str>)
        ensures
            match self {
                TranscriptionInclude::Unknown(s) => r matches Some(x) && x@ == s@,
                _ => r is None,
            },
    {
        match self {
            TranscriptionInclude::Unknown(s) => Some(s.as_str()),
            _ => None,
        }
    }
}

/// Timestamp detail requested for verbose transcription.
#[derive(Debug, Clone)]
pub enum TranscriptionTimestampGranularity {
    /// `word`.
    Word,
    /// `segment`.
    Segment,
    /// A value added by the service after this crate was released.
    Unknown(String),
}

/// Each variant of [`TranscriptionTimestampGranularity`] stands for the wire value the API pairs
/// with it, and those values are exactly the ones known.
pub proof fn law_transcription_timestamp_granularity_wire_values(value: Seq<char>)
    ensures
        TranscriptionTimestampGranularity::Word.wire() == "word"@,
        TranscriptionTimestampGranularity::Segment.wire() == "segment"@,
        TranscriptionTimestampGranularity::is_known_wire(value) <==> (value == "word"@ || value == "segment"@),
{
}

impl TranscriptionTimestampGranularity {
    /// The exact string used on the wire.
    pub open spec fn wire(&self) -> Seq<char> {
        match self {
            TranscriptionTimestampGranularity::Word => "word"@,
            TranscriptionTimestampGranularity::Segment => "segment"@,
            TranscriptionTimestampGranularity::Unknown(s) => s@,
        }
    }

    /// Whether `value` is one of the wire values this crate knows.
    pub open spec fn is_known_wire(value: Seq<char>) -> bool {
        value == "word"@ || value == "segment"@
    }

    /// Parses a wire value while retaining unknown strings verbatim.
    pub fn from_raw(value: &str) -> (r: Self)
        ensures
            r.wire() == value@,
            (r is Unknown) == !Self::is_known_wire(value@),
    {
        if chars_eq(value, "word") {
            TranscriptionTimestampGranularity::Word
        } else if chars_eq(value, "segment") {
            TranscriptionTimestampGranularity::Segment
        } else {
            TranscriptionTimestampGranularity::Unknown(value.to_owned())
        }
    }

    /// The exact string used on the wire.
    pub fn as_str(&self) -> (r: &str)
        ensures
            r@ == self.wire(),
    {
        match self {
            TranscriptionTimestampGranularity::Word => "word",
            TranscriptionTimestampGranularity::Segment => "segment",
            TranscriptionTimestampGranularity::Unknown(s) => s.as_str(),
        }
    }

    /// Whether this crate knows the wire value.
    pub fn is_known(&self) -> (r: bool)
        ensures
            r == !(self is Unknown),
    {
        match self {
            TranscriptionTimestampGranularity::Unknown(_) => false,
            _ => true,
        }
    }

    /// The raw value, only when it is unknown to this crate.
    pub fn unknown_value(&self) -> (r: Option<&str>)
        ensures
            match self {
                TranscriptionTimestampGranularity::Unknown(s) => r matches Some(x) && x@ == s@,
                _ => r is None,
            },
    {
        match self {
            TranscriptionTimestampGranularity::Unknown(s) => Some(s.as_str()),
            _ => None,
        }
    }
}

/// Automatic transcription chunking mode.
#[derive(Debug, Clone)]
pub enum TranscriptionChunkingMode {
    /// `auto`.
    Auto,
    /// A value added by the service after this crate was released.
    Unknown(String),
}

/// Each variant of [`TranscriptionChunkingMode`] stands for the wire value the API pairs
/// with it, and those values are exactly the ones known.
pub proof fn law_transcription_chunking_mode_wire_values(value: Seq<char>)
    ensures
        TranscriptionChunkingMode::Auto.wire() == "auto"@,
        TranscriptionChunkingMode::is_known_wire(value) <==> (value == "auto"@),
{
}

impl TranscriptionChunkingMode {
    /// The exact string used on the wire.
    pub open spec fn wire(&self) -> Seq<char> {
        match self {
            TranscriptionChunkingMode::Auto => "auto"@,
            TranscriptionChunkingMode::Unknown(s) => s@,
        }
    }

    /// Whether `value` is one of the wire values this crate knows.
    pub open spec fn is_known_wire(value: Seq<char>) -> bool {
        value == "auto"@
    }

    /// Parses a wire value while retaining unknown strings verbatim.
    pub fn from_raw(value: &str) -> (r: Self)
        ensures
            r.wire() == value@,
            (r is Unknown) == !Self::is_known_wire(value@),
    {
        if chars_eq(value, "auto") {
            TranscriptionChunkingMode::Auto
        } else {
            TranscriptionChunkingMode::Unknown(value.to_owned())
        }
    }

    /// The exact string used on the wire.
    pub fn as_str(&self) -> (r: &str)
        ensures
            r@ == self.wire(),
    {
        match self {
            TranscriptionChunkingMode::Auto => "auto",
            TranscriptionChunkingMode::Unknown(s) => s.as_str(),
        }
    }

    /// Whether this crate knows the wire value.
    pub fn is_known(&self) -> (r: bool)
        ensures
            r == !(self is Unknown),
    {
        match self {
            TranscriptionChunkingMode::Unknown(_) => false,
            _ => true,
        }
    }

    /// The raw value, only when it is unknown to this crate.
    pub fn unknown_value(&self) -> (r: Option<&str>)
        ensures
            match self {
                TranscriptionChunkingMode::Unknown(s) => r matches Some(x) && x@ == s@,
                _ => r is None,
            },
    {
        match self {
            TranscriptionChunkingMode::Unknown(s) => Some(s.as_str()),
            _ => None,
        }
    }
}

/// Server-side voice-activity detection of transcription chunking.
#[derive(Debug, Clone)]
pub struct TranscriptionVadConfig {
    /// Audio kept before detected speech, in milliseconds.
    pub prefix_padding_ms: Omittable<u64>,
    /// Silence that ends speech, in milliseconds.
    pub silence_duration_ms: Omittable<u64>,
    /// Sensitivity threshold, as its JSON number text.
    pub threshold: Omittable<String>,
}

impl TranscriptionVadConfig {
    /// Server VAD with the service defaults.
    pub fn new() -> (r: Self)
        ensures
            r.prefix_padding_ms is Omitted,
            r.silence_duration_ms is Omitted,
            r.threshold is Omitted,
    {
        TranscriptionVadConfig {
            prefix_padding_ms: Omittable::Omitted,
            silence_duration_ms: Omittable::Omitted,
            threshold: Omittable::Omitted,
        }
    }
}

impl Default for TranscriptionVadConfig {
    fn default() -> (r: Self)
        ensures
            r.prefix_padding_ms is Omitted,
            r.silence_duration_ms is Omitted,
            r.threshold is Omitted,
    {
        TranscriptionVadConfig::new()
    }
}

/// Automatic or configured transcription chunking.
#[derive(Clone, Debug)]
pub enum TranscriptionChunkingStrategy {
    /// `auto`, or a future string mode.
    Mode(TranscriptionChunkingMode),
    /// Explicit server VAD settings.
    ServerVad(TranscriptionVadConfig),
    /// A future object strategy, kept whole.
    Unknown(JsonObject),
}

/// The text fields of a transcription request.
#[derive(Clone, Debug)]
pub struct TranscriptionRequestMetadata {
    pub model: ModelId,
    pub language: Omittable<String>,
    pub languages: Omittable<Vec<String>>,
    pub keywords: Omittable<Vec<String>>,
    pub prompt: Omittable<String>,
    pub response_format: Omittable<TranscriptionResponseFormat>,
    /// Sampling temperature, as its JSON number text.
    pub temperature: Omittable<String>,
    pub included: Omittable<Vec<TranscriptionInclude>>,
    pub timestamp_granularities: Omittable<Vec<TranscriptionTimestampGranularity>>,
    pub stream: Omittable<Nullable<bool>>,
    pub chunking_strategy: Omittable<Nullable<TranscriptionChunkingStrategy>>,
    pub known_speaker_names: Omittable<Vec<String>>,
    pub known_speaker_references: Omittable<Vec<String>>,
}

/// The data URL of a known-speaker sample.
pub open spec fn speaker_reference(media_type: Seq<char>, sample: Seq<u8>) -> Seq<char> {
    "data:"@ + media_type + ";base64,"@ + base64_encoded(sample)
}

/// A list with one more item: the item starts the list when it was left out.
pub open spec fn appended<T>(list: Omittable<Vec<T>>, item: T) -> Seq<T> {
    match list {
        Omittable::Value(v) => v@.push(item),
        Omittable::Omitted => seq![item],
    }
}

impl TranscriptionRequestMetadata {
    /// The fields of a request of `model` with service defaults.
    fn new(model: ModelId) -> (r: Self)
        ensures
            r.model == model,
            r.language is Omitted,
            r.languages is Omitted,
            r.keywords is Omitted,
            r.prompt is Omitted,
            r.response_format is Omitted,
            r.temperature is Omitted,
            r.included is Omitted,
            r.timestamp_granularities is Omitted,
            r.stream is Omitted,
            r.chunking_strategy is Omitted,
            r.known_speaker_names is Omitted,
            r.known_speaker_references is Omitted,
    {
        TranscriptionRequestMetadata {
            model,
            language: Omittable::Omitted,
            languages: Omittable::Omitted,
            keywords: Omittable::Omitted,
            prompt: Omittable::Omitted,
            response_format: Omittable::Omitted,
            temperature: Omittable::Omitted,
            included: Omittable::Omitted,
            timestamp_granularities: Omittable::Omitted,
            stream: Omittable::Omitted,
            chunking_strategy: Omittable::Omitted,
            known_speaker_names: Omittable::Omitted,
            known_speaker_references: Omittable::Omitted,
        }
    }

    /// Whether the fields encode `stream: true`.
    pub open spec fn encodes_streaming(&self) -> bool {
        self.stream == Omittable::Value(Nullable::Value(true))
    }

    /// Whether the fields encode `stream: true`.
    pub fn is_streaming(&self) -> (r: bool)
        ensures
            r == self.encodes_streaming(),
    {
        match self.stream {
            Omittable::Value(Nullable::Value(b)) => b,
            _ => false,
        }
    }
}

/// Appends `item`, starting the list when it was left out.
fn push_item<T>(list: Omittable<Vec<T>>, item: T) -> (r: Vec<T>)
    ensures
        r@ == appended(list, item),
{
    match list {
        Omittable::Value(v) => {
            let mut v = v;
            v.push(item);
            v
        },
        Omittable::Omitted => {
            let mut v = Vec::new();
            v.push(item);
            v
        },
    }
}

/// A multipart transcription request; the audio is never JSON-encoded.
#[derive(Debug)]
pub struct CreateTranscriptionRequest<M: MediaStreamMode> {
    file: ReplayableMultipartSource,
    /// The text fields.
    pub metadata: TranscriptionRequestMetadata,
    mode: PhantomData<M>,
}

/// A transcription request expecting one JSON response.
pub type TranscriptionRequest = CreateTranscriptionRequest<MediaNonStreaming>;

/// A transcription request expecting server-sent events.
pub type TranscriptionStreamRequest = CreateTranscriptionRequest<MediaStreaming>;

impl CreateTranscriptionRequest<MediaNonStreaming> {
    /// A transcription of `file` by `model`.
    pub fn new(file: ReplayableMultipartSource, model: ModelId) -> (r: Self)
        ensures
            r.spec_file() == file,
            r.spec_metadata().model == model,
            r.spec_metadata().stream is Omitted,
            r.spec_metadata().known_speaker_names is Omitted,
            r.spec_metadata().known_speaker_references is Omitted,
            r.spec_metadata().included is Omitted,
            r.spec_metadata().language is Omitted,
            r.spec_metadata().response_format is Omitted,
            r.spec_metadata().chunking_strategy is Omitted,
    {
        CreateTranscriptionRequest {
            file,
            metadata: TranscriptionRequestMetadata::new(model),
            mode: PhantomData,
        }
    }

    /// Switches to server-sent events and encodes `stream: true`.
    pub fn into_streaming(self) -> (r: CreateTranscriptionRequest<MediaStreaming>)
        ensures
            r.spec_file() == self.spec_file(),
            r.spec_metadata().encodes_streaming(),
            r.spec_metadata() == (TranscriptionRequestMetadata {
                stream: Omittable::Value(Nullable::Value(true)),
                ..self.spec_metadata()
            }),
    {
        let mut metadata = self.metadata;
        metadata.stream = Omittable::Value(Nullable::Value(true));
        CreateTranscriptionRequest { file: self.file, metadata, mode: PhantomData }
    }
}

impl<M: MediaStreamMode> CreateTranscriptionRequest<M> {
    /// The text fields.
    pub closed spec fn spec_metadata(&self) -> TranscriptionRequestMetadata {
        self.metadata
    }

    /// The audio file.
    pub closed spec fn spec_file(&self) -> ReplayableMultipartSource {
        self.file
    }

    /// The audio file.
    pub fn file(&self) -> (r: &ReplayableMultipartSource)
        ensures
            *r == self.spec_file(),
    {
        &self.file
    }

    /// Selects the response format.
    pub fn with_response_format(self, format: TranscriptionResponseFormat) -> (r: Self)
        ensures
            r.spec_metadata() == (TranscriptionRequestMetadata {
                response_format: Omittable::Value(format),
                ..self.spec_metadata()
            }),
            r.spec_file() == self.spec_file(),
    {
        let mut metadata = self.metadata;
        metadata.response_format = Omittable::Value(format);
        CreateTranscriptionRequest { file: self.file, metadata, mode: PhantomData }
    }

    /// Sets the input language.
    pub fn with_language(self, language: &str) -> (r: Self)
        ensures
            r.spec_metadata().language matches Omittable::Value(l) && l@ == language@,
            r.spec_metadata() == (TranscriptionRequestMetadata {
                language: r.spec_metadata().language,
                ..self.spec_metadata()
            }),
            r.spec_file() == self.spec_file(),
    {
        let mut metadata = self.metadata;
        metadata.language = Omittable::Value(language.to_owned());
        CreateTranscriptionRequest { file: self.file, metadata, mode: PhantomData }
    }

    /// Asks for token log probabilities.
    pub fn with_logprobs(self) -> (r: Self)
        ensures
            r.spec_metadata().included matches Omittable::Value(v) && v@ == seq![TranscriptionInclude::Logprobs],
            r.spec_metadata() == (TranscriptionRequestMetadata {
                included: r.spec_metadata().included,
                ..self.spec_metadata()
            }),
            r.spec_file() == self.spec_file(),
    {
        let mut metadata = self.metadata;
        let mut included = Vec::new();
        included.push(TranscriptionInclude::Logprobs);
        metadata.included = Omittable::Value(included);
        CreateTranscriptionRequest { file: self.file, metadata, mode: PhantomData }
    }

    /// Sets the chunking strategy.
    pub fn with_chunking_strategy(self, strategy: TranscriptionChunkingStrategy) -> (r: Self)
        ensures
            r.spec_metadata() == (TranscriptionRequestMetadata {
                chunking_strategy: Omittable::Value(Nullable::Value(strategy)),
                ..self.spec_metadata()
            }),
            r.spec_file() == self.spec_file(),
    {
        let mut metadata = self.metadata;
        metadata.chunking_strategy = Omittable::Value(Nullable::Value(strategy));
        CreateTranscriptionRequest { file: self.file, metadata, mode: PhantomData }
    }

    /// Adds a known speaker: its name, and its sample as a base64 data URL
    /// of type `media_type`, each at the end of its list.
    pub fn with_known_speaker(self, name: &str, media_type: &str, sample: &[u8]) -> (r: Self)
        ensures
            r.spec_metadata().known_speaker_names matches Omittable::Value(n)
                && n@ == appended(self.spec_metadata().known_speaker_names, n@.last())
                && n@.last()@ == name@,
            r.spec_metadata().known_speaker_references matches Omittable::Value(f)
                && f@ == appended(self.spec_metadata().known_speaker_references, f@.last())
                && f@.last()@ == speaker_reference(media_type@, sample@),
            r.spec_metadata() == (TranscriptionRequestMetadata {
                known_speaker_names: r.spec_metadata().known_speaker_names,
                known_speaker_references: r.spec_metadata().known_speaker_references,
                ..self.spec_metadata()
            }),
            r.spec_file() == self.spec_file(),
    {
        let encoded = encode_base64(sample);
        let mut reference = concat_str("data:", media_type);
        reference.append(";base64,");
        reference.append(encoded.as_str());
        let mut metadata = self.metadata;
        let names = push_item(metadata.known_speaker_names, name.to_owned());
        let references = push_item(metadata.known_speaker_references, reference);
        metadata.known_speaker_names = Omittable::Value(names);
        metadata.known_speaker_references = Omittable::Value(references);
        CreateTranscriptionRequest { file: self.file, metadata, mode: PhantomData }
    }
}

/// The text fields of a translation request.
#[derive(Clone, Debug)]
pub struct TranslationRequestMetadata {
    pub model: ModelId,
    pub prompt: Omittable<String>,
    pub response_format: Omittable<TranslationResponseFormat>,
    /// Sampling temperature, as its JSON number text.
    pub temperature: Omittable<String>,
}

/// A multipart audio translation request; the audio is never JSON-encoded.
#[derive(Debug)]
pub struct CreateTranslationRequest {
    file: ReplayableMultipartSource,
    /// The text fields.
    pub metadata: TranslationRequestMetadata,
}

impl CreateTranslationRequest {
    /// The text fields.
    pub closed spec fn spec_metadata(&self) -> TranslationRequestMetadata {
        self.metadata
    }

    /// The audio file.
    pub closed spec fn spec_file(&self) -> ReplayableMultipartSource {
        self.file
    }

    /// A translation of `file` by `model`.
    pub fn new(file: ReplayableMultipartSource, model: ModelId) -> (r: Self)
        ensures
            r.spec_file() == file,
            r.spec_metadata().model == model,
            r.spec_metadata().prompt is Omitted,
            r.spec_metadata().response_format is Omitted,
            r.spec_metadata().temperature is Omitted,
    {
        CreateTranslationRequest {
            file,
            metadata: TranslationRequestMetadata {
                model,
                prompt: Omittable::Omitted,
                response_format: Omittable::Omitted,
                temperature: Omittable::Omitted,
            },
        }
    }

    /// The audio file.
    pub fn file(&self) -> (r: &ReplayableMultipartSource)
        ensures
            *r == self.spec_file(),
    {
        &self.file
    }

    /// Sets an English style or continuation prompt.
    pub fn with_prompt(self, prompt: &str) -> (r: Self)
        ensures
            r.spec_metadata().prompt matches Omittable::Value(p) && p@ == prompt@,
            r.spec_metadata().model == self.spec_metadata().model,
            r.spec_metadata().response_format == self.spec_metadata().response_format,
            r.spec_metadata().temperature == self.spec_metadata().temperature,
            r.spec_file() == self.spec_file(),
    {
        let mut metadata = self.metadata;
        metadata.prompt = Omittable::Value(prompt.to_owned());
        CreateTranslationRequest { file: self.file, metadata }
    }

    /// Selects the response format.
    pub fn with_response_format(self, format: TranslationResponseFormat) -> (r: Self)
        ensures
            r.spec_metadata().response_format == Omittable::Value(format),
            r.spec_metadata().model == self.spec_metadata().model,
            r.spec_metadata().prompt == self.spec_metadata().prompt,
            r.spec_metadata().temperature == self.spec_metadata().temperature,
            r.spec_file() == self.spec_file(),
    {
        let mut metadata = self.metadata;
        metadata.response_format = Omittable::Value(format);
        CreateTranslationRequest { file: self.file, metadata }
    }
}


/// The number of items of an optional list; a left-out list has none.
pub open spec fn list_len<T>(list: Omittable<Vec<T>>) -> nat {
    match list {
        Omittable::Value(v) => v@.len(),
        Omittable::Omitted => 0,
    }
}

/// Adding a known speaker grows the names and the sample references
/// together, so lists that were paired stay paired, and the new name and
/// reference share one position.
pub proof fn law_known_speakers_stay_paired<A, B>(
    names: Omittable<Vec<A>>,
    references: Omittable<Vec<B>>,
    name: A,
    reference: B,
)
    requires
        list_len(names) == list_len(references),
    ensures
        appended(names, name).len() == appended(references, reference).len(),
        appended(names, name).len() == list_len(names) + 1,
        appended(names, name)[list_len(names) as int] == name,
        appended(references, reference)[list_len(references) as int] == reference,
{
}

/// Whether a `stream_format` asks for server-sent events.
pub open spec fn asks_sse(format: Omittable<SpeechStreamFormat>) -> bool {
    format matches Omittable::Value(SpeechStreamFormat::Sse)
}

/// A text-to-speech request; its response mode is `M`.
#[derive(Debug)]
pub struct CreateSpeechRequest<M: MediaStreamMode> {
    model: ModelId,
    input: String,
    voice: SpeechVoice,
    instructions: Omittable<String>,
    response_format: Omittable<SpeechResponseFormat>,
    speed: Omittable<String>,
    stream_format: Omittable<SpeechStreamFormat>,
    mode: PhantomData<M>,
}

/// A speech request answered by a raw audio body.
pub type SpeechRequest = CreateSpeechRequest<MediaNonStreaming>;

/// A speech request answered by server-sent events.
pub type SpeechStreamRequest = CreateSpeechRequest<MediaStreaming>;

impl CreateSpeechRequest<MediaNonStreaming> {
    /// Speech of `input` by `model` in `voice`.
    pub fn new(model: ModelId, input: &str, voice: SpeechVoice) -> (r: Self)
        ensures
            r.spec_model() == model,
            r.spec_input() == input@,
            r.spec_voice() == voice,
            r.spec_instructions() is Omitted,
            r.spec_response_format() is Omitted,
            r.spec_speed() is Omitted,
            r.spec_stream_format() is Omitted,
    {
        CreateSpeechRequest {
            model,
            input: input.to_owned(),
            voice,
            instructions: Omittable::Omitted,
            response_format: Omittable::Omitted,
            speed: Omittable::Omitted,
            stream_format: Omittable::Omitted,
            mode: PhantomData,
        }
    }

    /// Switches to server-sent events (`stream_format: sse`).
    pub fn into_streaming(self) -> (r: CreateSpeechRequest<MediaStreaming>)
        ensures
            r.spec_stream_format() == Omittable::Value(SpeechStreamFormat::Sse),
            r.spec_model() == self.spec_model(),
            r.spec_input() == self.spec_input(),
            r.spec_voice() == self.spec_voice(),
            r.spec_instructions() == self.spec_instructions(),
            r.spec_response_format() == self.spec_response_format(),
            r.spec_speed() == self.spec_speed(),
    {
        CreateSpeechRequest {
            model: self.model,
            input: self.input,
            voice: self.voice,
            instructions: self.instructions,
            response_format: self.response_format,
            speed: self.speed,
            stream_format: Omittable::Value(SpeechStreamFormat::Sse),
            mode: PhantomData,
        }
    }
}

impl<M: MediaStreamMode> CreateSpeechRequest<M> {
    pub closed spec fn spec_model(&self) -> ModelId {
        self.model
    }

    pub closed spec fn spec_input(&self) -> Seq<char> {
        self.input@
    }

    pub closed spec fn spec_voice(&self) -> SpeechVoice {
        self.voice
    }

    pub closed spec fn spec_instructions(&self) -> Omittable<String> {
        self.instructions
    }

    pub closed spec fn spec_response_format(&self) -> Omittable<SpeechResponseFormat> {
        self.response_format
    }

    pub closed spec fn spec_speed(&self) -> Omittable<String> {
        self.speed
    }

    pub closed spec fn spec_stream_format(&self) -> Omittable<SpeechStreamFormat> {
        self.stream_format
    }

    /// A request of decoded fields, refused when `stream_format: sse` does
    /// not match response mode `M`.
    pub fn from_wire(
        model: ModelId,
        input: String,
        voice: SpeechVoice,
        instructions: Omittable<String>,
        response_format: Omittable<SpeechResponseFormat>,
        speed: Omittable<String>,
        stream_format: Omittable<SpeechStreamFormat>,
    ) -> (r: Result<Self, &'static str>)
        ensures
            asks_sse(stream_format) != M::is_streaming() ==> (r matches Err(m) && m@ == if M::is_streaming() {
                "streaming speech request requires `stream_format: sse`"@
            } else {
                "non-streaming speech request cannot use `stream_format: sse`"@
            }),
            asks_sse(stream_format) == M::is_streaming() ==> (r matches Ok(q) && q.spec_model() == model
                && q.spec_input() == input@ && q.spec_voice() == voice && q.spec_instructions()
                == instructions && q.spec_response_format() == response_format && q.spec_speed()
                == speed && q.spec_stream_format() == stream_format),
    {
        let sse = match &stream_format {
            Omittable::Value(SpeechStreamFormat::Sse) => true,
            _ => false,
        };
        let streaming = M::streaming();
        if sse != streaming {
            return Err(
                if streaming {
                    "streaming speech request requires `stream_format: sse`"
                } else {
                    "non-streaming speech request cannot use `stream_format: sse`"
                },
            );
        }
        Ok(
            CreateSpeechRequest {
                model,
                input,
                voice,
                instructions,
                response_format,
                speed,
                stream_format,
                mode: PhantomData,
            },
        )
    }

    /// The speech model.
    pub fn model(&self) -> (r: &ModelId)
        ensures
            *r == self.spec_model(),
    {
        &self.model
    }

    /// The text to speak.
    pub fn input(&self) -> (r: &str)
        ensures
            r@ == self.spec_input(),
    {
        self.input.as_str()
    }

    /// The voice.
    pub fn voice(&self) -> (r: &SpeechVoice)
        ensures
            *r == self.spec_voice(),
    {
        &self.voice
    }

    /// The voice-control instructions, left out or set.
    pub fn instructions(&self) -> (r: &Omittable<String>)
        ensures
            *r == self.spec_instructions(),
    {
        &self.instructions
    }

    /// The audio format, left out or set.
    pub fn response_format(&self) -> (r: &Omittable<SpeechResponseFormat>)
        ensures
            *r == self.spec_response_format(),
    {
        &self.response_format
    }

    /// The playback speed, as JSON number text, left out or set.
    pub fn speed(&self) -> (r: &Omittable<String>)
        ensures
            *r == self.spec_speed(),
    {
        &self.speed
    }

    /// The `stream_format` field.
    pub fn stream_format(&self) -> (r: &Omittable<SpeechStreamFormat>)
        ensures
            *r == self.spec_stream_format(),
    {
        &self.stream_format
    }

    /// Sets voice-control instructions.
    pub fn with_instructions(self, instructions: &str) -> (r: Self)
        ensures
            r.spec_instructions() matches Omittable::Value(i) && i@ == instructions@,
            r.spec_model() == self.spec_model(),
            r.spec_input() == self.spec_input(),
            r.spec_voice() == self.spec_voice(),
            r.spec_response_format() == self.spec_response_format(),
            r.spec_speed() == self.spec_speed(),
            r.spec_stream_format() == self.spec_stream_format(),
    {
        CreateSpeechRequest { instructions: Omittable::Value(instructions.to_owned()), ..self }
    }

    /// Selects the audio format.
    pub fn with_response_format(self, format: SpeechResponseFormat) -> (r: Self)
        ensures
            r.spec_response_format() == Omittable::Value(format),
            r.spec_model() == self.spec_model(),
            r.spec_input() == self.spec_input(),
            r.spec_voice() == self.spec_voice(),
            r.spec_instructions() == self.spec_instructions(),
            r.spec_speed() == self.spec_speed(),
            r.spec_stream_format() == self.spec_stream_format(),
    {
        CreateSpeechRequest { response_format: Omittable::Value(format), ..self }
    }

    /// Sets the playback speed, given as the JSON number text of a speed
    /// already checked to lie in `0.25..=4.0`.
    pub fn with_speed(self, speed: &str) -> (r: Self)
        ensures
            r.spec_speed() matches Omittable::Value(s) && s@ == speed@,
            r.spec_model() == self.spec_model(),
            r.spec_input() == self.spec_input(),
            r.spec_voice() == self.spec_voice(),
            r.spec_instructions() == self.spec_instructions(),
            r.spec_response_format() == self.spec_response_format(),
            r.spec_stream_format() == self.spec_stream_format(),
    {
        CreateSpeechRequest { speed: Omittable::Value(speed.to_owned()), ..self }
    }
}

} // verus!
