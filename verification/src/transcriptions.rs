//! Transcription and translation responses: plain, verbose and diarized
//! transcripts, their usage, and the events of a streaming transcription.
//! Times, durations, probabilities and temperatures are held as their JSON
//! number text.
use vstd::prelude::*;
use crate::json::{ExtraFields, Json, JsonObject};
use crate::media::{TranscriptionLanguage, TranscriptionTokenUsage};
use crate::text::chars_eq;
use crate::wire::Omittable;

verus! {


/// Duration-billed transcription usage.
#[derive(Clone, Debug)]
pub struct TranscriptionDurationUsage {
    /// Input audio duration in seconds, as its JSON number text.
    pub seconds: String,
    pub extra: ExtraFields,
}

impl TranscriptionDurationUsage {
    /// Members not modelled here, kept as received.
    pub fn extra(&self) -> (r: &ExtraFields)
        ensures
            r@ == self.extra@,
    {
        &self.extra
    }
}

/// Token- or duration-billed transcription usage; a kind added later is
/// kept as received.
#[derive(Clone, Debug)]
pub enum TranscriptionUsage {
    /// `tokens`.
    Tokens(TranscriptionTokenUsage),
    /// `duration`.
    Duration(TranscriptionDurationUsage),
    /// A kind added after this crate was released, as received.
    Unknown(JsonObject),
}

/// Log probability of one token of a transcript.
#[derive(Clone, Debug)]
pub struct TranscriptionLogprob {
    pub token: Omittable<String>,
    /// The log probability, as its JSON number text.
    pub logprob: Omittable<String>,
    /// Byte values, each as its JSON number text.
    pub bytes: Omittable<Vec<String>>,
    pub extra: ExtraFields,
}

impl Default for TranscriptionLogprob {
    fn default() -> (r: Self)
        ensures
            r.token is Omitted,
            r.logprob is Omitted,
            r.bytes is Omitted,
            r.extra@ == Seq::<(Seq<char>, Json)>::empty(),
    {
        TranscriptionLogprob {
            token: Omittable::Omitted,
            logprob: Omittable::Omitted,
            bytes: Omittable::Omitted,
            extra: ExtraFields::new(),
        }
    }
}

impl TranscriptionLogprob {
    /// Members not modelled here, kept as received.
    pub fn extra(&self) -> (r: &ExtraFields)
        ensures
            r@ == self.extra@,
    {
        &self.extra
    }
}

/// A transcription in the plain JSON format.
#[derive(Clone, Debug)]
pub struct Transcription {
    pub text: String,
    pub languages: Omittable<Vec<TranscriptionLanguage>>,
    pub logprobs: Omittable<Vec<TranscriptionLogprob>>,
    pub usage: Omittable<TranscriptionUsage>,
    pub extra: ExtraFields,
}

impl Transcription {
    /// Members not modelled here, kept as received.
    pub fn extra(&self) -> (r: &ExtraFields)
        ensures
            r@ == self.extra@,
    {
        &self.extra
    }
}

/// The plain JSON transcription under its schema name.
pub type CreateTranscriptionResponseJson = Transcription;

/// One word with its timing.
#[derive(Clone, Debug)]
pub struct TranscriptionWord {
    pub word: String,
    /// Start time in seconds, as its JSON number text.
    pub start: String,
    /// End time in seconds, as its JSON number text.
    pub end: String,
    pub extra: ExtraFields,
}

impl TranscriptionWord {
    /// Members not modelled here, kept as received.
    pub fn extra(&self) -> (r: &ExtraFields)
        ensures
            r@ == self.extra@,
    {
        &self.extra
    }
}

/// One segment of a verbose transcription or translation.
#[derive(Clone, Debug)]
pub struct TranscriptionSegment {
    pub id: u64,
    pub seek: u64,
    /// Start time in seconds, as its JSON number text.
    pub start: String,
    /// End time in seconds, as its JSON number text.
    pub end: String,
    pub text: String,
    pub tokens: Vec<u64>,
    /// Sampling temperature, as its JSON number text.
    pub temperature: String,
    /// Average log probability, as its JSON number text.
    pub avg_logprob: String,
    /// Compression ratio, as its JSON number text.
    pub compression_ratio: String,
    /// Probability of no speech, as its JSON number text.
    pub no_speech_prob: String,
    pub extra: ExtraFields,
}

impl TranscriptionSegment {
    /// Members not modelled here, kept as received.
    pub fn extra(&self) -> (r: &ExtraFields)
        ensures
            r@ == self.extra@,
    {
        &self.extra
    }
}

/// A transcription in the verbose JSON format.
#[derive(Clone, Debug)]
pub struct VerboseTranscription {
    pub language: String,
    /// Input duration in seconds, as its JSON number text.
    pub duration: String,
    pub text: String,
    pub words: Omittable<Vec<TranscriptionWord>>,
    pub segments: Omittable<Vec<TranscriptionSegment>>,
    pub usage: Omittable<TranscriptionDurationUsage>,
    pub extra: ExtraFields,
}

impl VerboseTranscription {
    /// Members not modelled here, kept as received.
    pub fn extra(&self) -> (r: &ExtraFields)
        ensures
            r@ == self.extra@,
    {
        &self.extra
    }
}

/// The verbose JSON transcription under its schema name.
pub type CreateTranscriptionResponseVerboseJson = VerboseTranscription;

/// A segment of a diarized transcription, with its speaker.
#[derive(Clone, Debug)]
pub struct DiarizedTranscriptionSegment {
    pub id: String,
    /// Start time in seconds, as its JSON number text.
    pub start: String,
    /// End time in seconds, as its JSON number text.
    pub end: String,
    pub text: String,
    pub speaker: String,
    pub extra: ExtraFields,
}

impl DiarizedTranscriptionSegment {
    /// Members not modelled here, kept as received.
    pub fn extra(&self) -> (r: &ExtraFields)
        ensures
            r@ == self.extra@,
    {
        &self.extra
    }
}

/// The task of a diarized transcription.
#[derive(Debug, Clone)]
pub enum DiarizedTask {
    /// `transcribe`.
    Transcribe,
    /// A value added by the service after this crate was released.
    Unknown(String),
}

/// Each variant of [`DiarizedTask`] stands for the wire value the API pairs
/// with it, and those values are exactly the ones known.
pub proof fn law_diarized_task_wire_values(value: Seq<char>)
    ensures
        DiarizedTask::Transcribe.wire() == "transcribe"@,
        DiarizedTask::is_known_wire(value) <==> (value == "transcribe"@),
{
}

impl DiarizedTask {
    /// The exact string used on the wire.
    pub open spec fn wire(&self) -> Seq<char> {
        match self {
            DiarizedTask::Transcribe => "transcribe"@,
            DiarizedTask::Unknown(s) => s@,
        }
    }

    /// Whether `value` is one of the wire values this crate knows.
    pub open spec fn is_known_wire(value: Seq<char>) -> bool {
        value == "transcribe"@
    }

    /// Parses a wire value while retaining unknown strings verbatim.
    pub fn from_raw(value: &str) -> (r: Self)
        ensures
            r.wire() == value@,
            (r is Unknown) == !Self::is_known_wire(value@),
    {
        if chars_eq(value, "transcribe") {
            DiarizedTask::Transcribe
        } else {
            DiarizedTask::Unknown(value.to_owned())
        }
    }

    /// The exact string used on the wire.
    pub fn as_str(&self) -> (r: &str)
        ensures
            r@ == self.wire(),
    {
        match self {
            DiarizedTask::Transcribe => "transcribe",
            DiarizedTask::Unknown(s) => s.as_str(),
        }
    }

    /// Whether this crate knows the wire value.
    pub fn is_known(&self) -> (r: bool)
        ensures
            r == !(self is Unknown),
    {
        match self {
            DiarizedTask::Unknown(_) => false,
            _ => true,
        }
    }

    /// The raw value, only when it is unknown to this crate.
    pub fn unknown_value(&self) -> (r: Option<&str>)
        ensures
            match self {
                DiarizedTask::Unknown(s) => r matches Some(x) && x@ == s@,
                _ => r is None,
            },
    {
        match self {
            DiarizedTask::Unknown(s) => Some(s.as_str()),
            _ => None,
        }
    }
}

/// A transcription in the diarized JSON format.
#[derive(Clone, Debug)]
pub struct DiarizedTranscription {
    pub task: DiarizedTask,
    /// Input duration in seconds, as its JSON number text.
    pub duration: String,
    pub text: String,
    pub segments: Vec<DiarizedTranscriptionSegment>,
    pub usage: Omittable<TranscriptionUsage>,
    pub extra: ExtraFields,
}

impl DiarizedTranscription {
    /// Members not modelled here, kept as received.
    pub fn extra(&self) -> (r: &ExtraFields)
        ensures
            r@ == self.extra@,
    {
        &self.extra
    }
}

/// The diarized JSON transcription under its schema name.
pub type CreateTranscriptionResponseDiarizedJson = DiarizedTranscription;

/// Log probability of one token in a transcription stream.
#[derive(Clone, Debug)]
pub struct TranscriptionStreamLogprob {
    pub token: Omittable<String>,
    /// The log probability, as its JSON number text.
    pub logprob: Omittable<String>,
    pub bytes: Omittable<Vec<u8>>,
    pub extra: ExtraFields,
}

impl Default for TranscriptionStreamLogprob {
    fn default() -> (r: Self)
        ensures
            r.token is Omitted,
            r.logprob is Omitted,
            r.bytes is Omitted,
            r.extra@ == Seq::<(Seq<char>, Json)>::empty(),
    {
        TranscriptionStreamLogprob {
            token: Omittable::Omitted,
            logprob: Omittable::Omitted,
            bytes: Omittable::Omitted,
            extra: ExtraFields::new(),
        }
    }
}

impl TranscriptionStreamLogprob {
    /// Members not modelled here, kept as received.
    pub fn extra(&self) -> (r: &ExtraFields)
        ensures
            r@ == self.extra@,
    {
        &self.extra
    }
}

/// New transcript text (`transcript.text.delta`).
#[derive(Clone, Debug)]
pub struct TranscriptionTextDeltaEvent {
    pub delta: String,
    pub logprobs: Omittable<Vec<TranscriptionStreamLogprob>>,
    pub segment_id: Omittable<String>,
    pub extra: ExtraFields,
}

impl TranscriptionTextDeltaEvent {
    /// Members not modelled here, kept as received.
    pub fn extra(&self) -> (r: &ExtraFields)
        ensures
            r@ == self.extra@,
    {
        &self.extra
    }
}

/// A completed diarized segment (`transcript.text.segment`).
#[derive(Clone, Debug)]
pub struct TranscriptionTextSegmentEvent {
    pub id: String,
    /// Start time in seconds, as its JSON number text.
    pub start: String,
    /// End time in seconds, as its JSON number text.
    pub end: String,
    pub text: String,
    pub speaker: String,
    pub extra: ExtraFields,
}

impl TranscriptionTextSegmentEvent {
    /// Members not modelled here, kept as received.
    pub fn extra(&self) -> (r: &ExtraFields)
        ensures
            r@ == self.extra@,
    {
        &self.extra
    }
}

/// The complete transcript (`transcript.text.done`).
#[derive(Clone, Debug)]
pub struct TranscriptionTextDoneEvent {
    pub text: String,
    pub languages: Omittable<Vec<TranscriptionLanguage>>,
    pub logprobs: Omittable<Vec<TranscriptionStreamLogprob>>,
    pub usage: Omittable<TranscriptionTokenUsage>,
    pub extra: ExtraFields,
}

impl TranscriptionTextDoneEvent {
    /// Members not modelled here, kept as received.
    pub fn extra(&self) -> (r: &ExtraFields)
        ensures
            r@ == self.extra@,
    {
        &self.extra
    }
}

/// A translation in the verbose JSON format.
#[derive(Clone, Debug)]
pub struct VerboseTranslation {
    pub language: String,
    /// Input duration in seconds, as its JSON number text.
    pub duration: String,
    pub text: String,
    pub segments: Omittable<Vec<TranscriptionSegment>>,
    pub extra: ExtraFields,
}

impl VerboseTranslation {
    /// Members not modelled here, kept as received.
    pub fn extra(&self) -> (r: &ExtraFields)
        ensures
            r@ == self.extra@,
    {
        &self.extra
    }
}

/// One event of a streaming transcription; an event added later is kept as
/// received.
#[derive(Clone, Debug)]
pub enum TranscriptionStreamEvent {
    /// `transcript.text.delta`.
    TextDelta(TranscriptionTextDeltaEvent),
    /// `transcript.text.segment`.
    TextSegment(TranscriptionTextSegmentEvent),
    /// `transcript.text.done`.
    TextDone(TranscriptionTextDoneEvent),
    /// An event added after this crate was released, as received.
    Unknown(JsonObject),
}

/// The streaming transcription event under its schema name.
pub type CreateTranscriptionResponseStreamEvent = TranscriptionStreamEvent;

impl TranscriptionStreamEvent {
    /// Whether the event ends the stream.
    pub fn is_terminal(&self) -> (r: bool)
        ensures
            r == (self is TextDone),
    {
        match self {
            TranscriptionStreamEvent::TextDone(_) => true,
            _ => false,
        }
    }
}

/// The variant a `type` tag of a transcription stream event selects.
#[derive(Debug, Clone, Copy, PartialEq, Eq, Structural)]
pub enum TranscriptionStreamEventKind {
    TextDelta,
    TextSegment,
    TextDone,
    Unknown,
}

/// Each `type` tag of a streaming transcription event selects its event:
/// text delta, text segment and text done; any other tag is kept whole.
pub proof fn law_transcription_stream_event_tags_select_schema_variants(tag: Seq<char>)
    ensures
        tag == "transcript.text.delta"@ ==> TranscriptionStreamEventKind::of_tag(tag) == TranscriptionStreamEventKind::TextDelta,
        tag == "transcript.text.segment"@ ==> TranscriptionStreamEventKind::of_tag(tag) == TranscriptionStreamEventKind::TextSegment,
        tag == "transcript.text.done"@ ==> TranscriptionStreamEventKind::of_tag(tag) == TranscriptionStreamEventKind::TextDone,
        !(tag == "transcript.text.delta"@ || tag == "transcript.text.segment"@ || tag == "transcript.text.done"@) ==> TranscriptionStreamEventKind::of_tag(tag) == TranscriptionStreamEventKind::Unknown,
{
    reveal_strlit("transcript.text.delta");
    reveal_strlit("transcript.text.segment");
    reveal_strlit("transcript.text.done");
    assert("transcript.text.delta"@.len() == 21);
    assert("transcript.text.segment"@.len() == 23);
    assert("transcript.text.done"@.len() == 20);
}

impl TranscriptionStreamEventKind {
    /// The kind a tag selects.
    pub open spec fn of_tag(tag: Seq<char>) -> Self {
        if tag == "transcript.text.delta"@ {
            TranscriptionStreamEventKind::TextDelta
        } else if tag == "transcript.text.segment"@ {
            TranscriptionStreamEventKind::TextSegment
        } else if tag == "transcript.text.done"@ {
            TranscriptionStreamEventKind::TextDone
        } else {
            TranscriptionStreamEventKind::Unknown
        }
    }

    /// The kind a decoded event's `type` tag selects.
    pub fn from_tag(tag: &str) -> (r: Self)
        ensures
            r == Self::of_tag(tag@),
    {
        if chars_eq(tag, "transcript.text.delta") {
            TranscriptionStreamEventKind::TextDelta
        } else if chars_eq(tag, "transcript.text.segment") {
            TranscriptionStreamEventKind::TextSegment
        } else if chars_eq(tag, "transcript.text.done") {
            TranscriptionStreamEventKind::TextDone
        } else {
            TranscriptionStreamEventKind::Unknown
        }
    }
}

/// The variant a `type` tag of transcription usage selects.
#[derive(Debug, Clone, Copy, PartialEq, Eq, Structural)]
pub enum TranscriptionUsageKind {
    Tokens,
    Duration,
    Unknown,
}

/// `tokens` selects token-billed and `duration` duration-billed transcription
/// usage; any other tag is kept whole.
pub proof fn law_transcription_usage_tags_select_schema_variants(tag: Seq<char>)
    ensures
        tag == "tokens"@ ==> TranscriptionUsageKind::of_tag(tag) == TranscriptionUsageKind::Tokens,
        tag == "duration"@ ==> TranscriptionUsageKind::of_tag(tag) == TranscriptionUsageKind::Duration,
        !(tag == "tokens"@ || tag == "duration"@) ==> TranscriptionUsageKind::of_tag(tag) == TranscriptionUsageKind::Unknown,
{
    reveal_strlit("tokens");
    reveal_strlit("duration");
    assert("tokens"@.len() == 6);
    assert("duration"@.len() == 8);
}

impl TranscriptionUsageKind {
    /// The kind a tag selects.
    pub open spec fn of_tag(tag: Seq<char>) -> Self {
        if tag == "tokens"@ {
            TranscriptionUsageKind::Tokens
        } else if tag == "duration"@ {
            TranscriptionUsageKind::Duration
        } else {
            TranscriptionUsageKind::Unknown
        }
    }

    /// The kind a decoded usage object's `type` tag selects.
    pub fn from_tag(tag: &str) -> (r: Self)
        ensures
            r == Self::of_tag(tag@),
    {
        if chars_eq(tag, "tokens") {
            TranscriptionUsageKind::Tokens
        } else if chars_eq(tag, "duration") {
            TranscriptionUsageKind::Duration
        } else {
            TranscriptionUsageKind::Unknown
        }
    }
}

/// The verbose JSON translation under its schema name.
pub type CreateTranslationResponseVerboseJson = VerboseTranslation;

} // verus!
