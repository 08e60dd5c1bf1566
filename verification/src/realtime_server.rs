//! What a Realtime server sends: the response resource, transcription
//! usage and rate limits, every server event, and the events of a
//! translation session, with their routing by `type` tag.
use vstd::prelude::*;
use crate::json::{ExtraFields, Json};
use crate::media::TranscriptionLanguage;
use crate::realtime::{RealtimeAudio, UnknownRealtimeObject};
use crate::realtime_calls::RealtimeTranslationSession;
use crate::realtime_enums::{
    RealtimeOutputModality, RealtimeRateLimitName, RealtimeResponseStatus,
    RealtimeTranslationAudioFormat,
};
use crate::realtime_items::{
    RealtimeConversation, RealtimeConversationItem, RealtimeErrorDetails, RealtimeMaxOutputTokens,
    RealtimeResponseContentPart, RealtimeResponseStatusDetails, RealtimeResponseUsage,
    RealtimeServerEventInputAudioBufferDtmfEventReceived, RealtimeTranscriptTokenUsage,
    RealtimeTranscriptionError,
};
use crate::realtime_session::{RealtimeResponseAudio, RealtimeSessionState};
use crate::scalar::JsonText;
use crate::text::chars_eq;
use crate::wire::{Nullable, Omittable};

verus! {

/// Log probability of one token of an input-audio transcript.
#[derive(Clone, Debug)]
pub struct RealtimeTranscriptionLogprob {
    pub token: String,
    /// The log probability, as its JSON number text.
    pub logprob: String,
    pub bytes: Vec<i64>,
    pub extra: ExtraFields,
}

impl RealtimeTranscriptionLogprob {
    /// Members not modelled here, kept as received.
    pub fn extra_fields(&self) -> (r: &ExtraFields)
        ensures
            r@ == self.extra@,
    {
        &self.extra
    }
}

/// Duration-billed transcription usage.
#[derive(Clone, Debug)]
pub struct RealtimeTranscriptDurationUsage {
    /// Billed seconds, as their JSON number text.
    pub seconds: String,
    pub extra: ExtraFields,
}

impl RealtimeTranscriptDurationUsage {
    /// Members not modelled here, kept as received.
    pub fn extra_fields(&self) -> (r: &ExtraFields)
        ensures
            r@ == self.extra@,
    {
        &self.extra
    }
}

/// Usage of an input-audio transcription; a kind of a `type` not modelled
/// here is kept whole.
#[derive(Clone, Debug)]
pub enum RealtimeTranscriptionUsage {
    Tokens(RealtimeTranscriptTokenUsage),
    Duration(RealtimeTranscriptDurationUsage),
    Unknown(UnknownRealtimeObject),
}

/// The variant a `type` tag of transcription usage selects.
#[derive(Debug, Clone, Copy, PartialEq, Eq, Structural)]
pub enum RealtimeTranscriptionUsageKind {
    Tokens,
    Duration,
    Unknown,
}

/// `tokens` selects token-billed and `duration` duration-billed Realtime
/// transcription usage; any other tag is kept whole.
pub proof fn law_realtime_transcription_usage_tags_select_schema_variants(tag: Seq<char>)
    ensures
        tag == "tokens"@ ==> RealtimeTranscriptionUsageKind::of_tag(tag) == RealtimeTranscriptionUsageKind::Tokens,
        tag == "duration"@ ==> RealtimeTranscriptionUsageKind::of_tag(tag) == RealtimeTranscriptionUsageKind::Duration,
        !(tag == "tokens"@ || tag == "duration"@) ==> RealtimeTranscriptionUsageKind::of_tag(tag) == RealtimeTranscriptionUsageKind::Unknown,
{
    reveal_strlit("tokens");
    reveal_strlit("duration");
    assert("tokens"@.len() == 6);
    assert("duration"@.len() == 8);
}

impl RealtimeTranscriptionUsageKind {
    /// The kind a tag selects.
    pub open spec fn of_tag(tag: Seq<char>) -> Self {
        if tag == "tokens"@ {
            RealtimeTranscriptionUsageKind::Tokens
        } else if tag == "duration"@ {
            RealtimeTranscriptionUsageKind::Duration
        } else {
            RealtimeTranscriptionUsageKind::Unknown
        }
    }

    /// The kind a decoded usage object's `type` tag selects.
    pub fn from_tag(tag: &str) -> (r: Self)
        ensures
            r == Self::of_tag(tag@),
    {
        if chars_eq(tag, "tokens") {
            RealtimeTranscriptionUsageKind::Tokens
        } else if chars_eq(tag, "duration") {
            RealtimeTranscriptionUsageKind::Duration
        } else {
            RealtimeTranscriptionUsageKind::Unknown
        }
    }
}

/// One rate limit as it stands.
#[derive(Clone, Debug)]
pub struct RealtimeRateLimit {
    pub name: Omittable<RealtimeRateLimitName>,
    pub limit: Omittable<i64>,
    pub remaining: Omittable<i64>,
    /// Seconds until the limit resets, as their JSON number text.
    pub reset_seconds: Omittable<String>,
    pub extra: ExtraFields,
}

impl Default for RealtimeRateLimit {
    fn default() -> (r: Self)
        ensures
            r.name is Omitted,
            r.limit is Omitted,
            r.remaining is Omitted,
            r.reset_seconds is Omitted,
            r.extra@ == Seq::<(Seq<char>, Json)>::empty(),
    {
        RealtimeRateLimit {
            name: Omittable::Omitted,
            limit: Omittable::Omitted,
            remaining: Omittable::Omitted,
            reset_seconds: Omittable::Omitted,
            extra: ExtraFields::new(),
        }
    }
}

impl RealtimeRateLimit {
    /// Members not modelled here, kept as received.
    pub fn extra_fields(&self) -> (r: &ExtraFields)
        ensures
            r@ == self.extra@,
    {
        &self.extra
    }
}

/// A Realtime response, as its lifecycle events carry it.
pub struct RealtimeResponse {
    pub id: Omittable<String>,
    /// Whether the `object` member (`realtime.response`) was sent.
    pub object_marker: bool,
    pub status: Omittable<RealtimeResponseStatus>,
    pub status_details: Omittable<Nullable<RealtimeResponseStatusDetails>>,
    pub output: Omittable<Vec<RealtimeConversationItem>>,
    /// String pairs, by key.
    pub metadata: Omittable<Nullable<Vec<(String, String)>>>,
    pub audio: Omittable<RealtimeResponseAudio>,
    pub usage: Omittable<Nullable<RealtimeResponseUsage>>,
    pub conversation_id: Omittable<Nullable<String>>,
    pub output_modalities: Omittable<Vec<RealtimeOutputModality>>,
    pub max_output_tokens: Omittable<Nullable<RealtimeMaxOutputTokens>>,
    pub extra: ExtraFields,
}

impl RealtimeResponse {
    /// Members not modelled here, kept as received.
    pub fn extra_fields(&self) -> (r: &ExtraFields)
        ensures
            r@ == self.extra@,
    {
        &self.extra
    }
}

impl Default for RealtimeResponse {
    fn default() -> (r: Self)
        ensures
            r.id is Omitted,
            !r.object_marker,
            r.status is Omitted,
            r.status_details is Omitted,
            r.output is Omitted,
            r.metadata is Omitted,
            r.audio is Omitted,
            r.usage is Omitted,
            r.conversation_id is Omitted,
            r.output_modalities is Omitted,
            r.max_output_tokens is Omitted,
            r.extra@ == Seq::<(Seq<char>, Json)>::empty(),
    {
        RealtimeResponse {
            id: Omittable::Omitted,
            object_marker: false,
            status: Omittable::Omitted,
            status_details: Omittable::Omitted,
            output: Omittable::Omitted,
            metadata: Omittable::Omitted,
            audio: Omittable::Omitted,
            usage: Omittable::Omitted,
            conversation_id: Omittable::Omitted,
            output_modalities: Omittable::Omitted,
            max_output_tokens: Omittable::Omitted,
            extra: ExtraFields::new(),
        }
    }
}

/// Announces the conversation resource created for a session (`conversation.created`).
#[derive(Clone, Debug)]
pub struct RealtimeServerEventConversationCreated {
    pub event_id: String,
    pub conversation: RealtimeConversation,
    pub extra: ExtraFields,
}

impl RealtimeServerEventConversationCreated {
    /// Members not modelled here, kept as received.
    pub fn extra_fields(&self) -> (r: &ExtraFields)
        ensures
            r@ == self.extra@,
    {
        &self.extra
    }
}

/// Confirms creation of a conversation item (`conversation.item.created`).
pub struct RealtimeServerEventConversationItemCreated {
    pub event_id: String,
    pub previous_item_id: Omittable<Nullable<String>>,
    pub item: RealtimeConversationItem,
    pub extra: ExtraFields,
}

impl RealtimeServerEventConversationItemCreated {
    /// Members not modelled here, kept as received.
    pub fn extra_fields(&self) -> (r: &ExtraFields)
        ensures
            r@ == self.extra@,
    {
        &self.extra
    }
}

/// Confirms deletion of a conversation item (`conversation.item.deleted`).
#[derive(Clone, Debug)]
pub struct RealtimeServerEventConversationItemDeleted {
    pub event_id: String,
    pub item_id: String,
    pub extra: ExtraFields,
}

impl RealtimeServerEventConversationItemDeleted {
    /// Members not modelled here, kept as received.
    pub fn extra_fields(&self) -> (r: &ExtraFields)
        ensures
            r@ == self.extra@,
    {
        &self.extra
    }
}

/// Final input-audio transcript and its billing usage (`conversation.item.input_audio_transcription.completed`).
#[derive(Clone, Debug)]
pub struct RealtimeServerEventConversationItemInputAudioTranscriptionCompleted {
    pub event_id: String,
    pub item_id: String,
    pub content_index: i64,
    pub transcript: String,
    pub languages: Omittable<Vec<TranscriptionLanguage>>,
    pub logprobs: Omittable<Nullable<Vec<RealtimeTranscriptionLogprob>>>,
    pub usage: RealtimeTranscriptionUsage,
    pub extra: ExtraFields,
}

impl RealtimeServerEventConversationItemInputAudioTranscriptionCompleted {
    /// Members not modelled here, kept as received.
    pub fn extra_fields(&self) -> (r: &ExtraFields)
        ensures
            r@ == self.extra@,
    {
        &self.extra
    }
}

/// Incremental input-audio transcription (`conversation.item.input_audio_transcription.delta`).
#[derive(Clone, Debug)]
pub struct RealtimeServerEventConversationItemInputAudioTranscriptionDelta {
    pub event_id: String,
    pub item_id: String,
    pub content_index: Omittable<i64>,
    pub delta: Omittable<String>,
    pub logprobs: Omittable<Nullable<Vec<RealtimeTranscriptionLogprob>>>,
    pub extra: ExtraFields,
}

impl RealtimeServerEventConversationItemInputAudioTranscriptionDelta {
    /// Members not modelled here, kept as received.
    pub fn extra_fields(&self) -> (r: &ExtraFields)
        ensures
            r@ == self.extra@,
    {
        &self.extra
    }
}

/// Input-audio transcription failure (`conversation.item.input_audio_transcription.failed`).
#[derive(Clone, Debug)]
pub struct RealtimeServerEventConversationItemInputAudioTranscriptionFailed {
    pub event_id: String,
    pub item_id: String,
    pub content_index: i64,
    pub error: RealtimeTranscriptionError,
    pub extra: ExtraFields,
}

impl RealtimeServerEventConversationItemInputAudioTranscriptionFailed {
    /// Members not modelled here, kept as received.
    pub fn extra_fields(&self) -> (r: &ExtraFields)
        ensures
            r@ == self.extra@,
    {
        &self.extra
    }
}

/// Returns a requested conversation item (`conversation.item.retrieved`).
pub struct RealtimeServerEventConversationItemRetrieved {
    pub event_id: String,
    pub item: RealtimeConversationItem,
    pub extra: ExtraFields,
}

impl RealtimeServerEventConversationItemRetrieved {
    /// Members not modelled here, kept as received.
    pub fn extra_fields(&self) -> (r: &ExtraFields)
        ensures
            r@ == self.extra@,
    {
        &self.extra
    }
}

/// Confirms truncation of assistant audio (`conversation.item.truncated`).
#[derive(Clone, Debug)]
pub struct RealtimeServerEventConversationItemTruncated {
    pub event_id: String,
    pub item_id: String,
    pub content_index: i64,
    pub audio_end_ms: i64,
    pub extra: ExtraFields,
}

impl RealtimeServerEventConversationItemTruncated {
    /// Members not modelled here, kept as received.
    pub fn extra_fields(&self) -> (r: &ExtraFields)
        ensures
            r@ == self.extra@,
    {
        &self.extra
    }
}

/// Protocol or request error (`error`).
#[derive(Clone, Debug)]
pub struct RealtimeServerEventError {
    pub event_id: String,
    pub error: RealtimeErrorDetails,
    pub extra: ExtraFields,
}

impl RealtimeServerEventError {
    /// Members not modelled here, kept as received.
    pub fn extra_fields(&self) -> (r: &ExtraFields)
        ensures
            r@ == self.extra@,
    {
        &self.extra
    }
}

/// Confirms the input audio buffer was cleared (`input_audio_buffer.cleared`).
#[derive(Clone, Debug)]
pub struct RealtimeServerEventInputAudioBufferCleared {
    pub event_id: String,
    pub extra: ExtraFields,
}

impl RealtimeServerEventInputAudioBufferCleared {
    /// Members not modelled here, kept as received.
    pub fn extra_fields(&self) -> (r: &ExtraFields)
        ensures
            r@ == self.extra@,
    {
        &self.extra
    }
}

/// Confirms commit of the input audio buffer (`input_audio_buffer.committed`).
#[derive(Clone, Debug)]
pub struct RealtimeServerEventInputAudioBufferCommitted {
    pub event_id: String,
    pub previous_item_id: Omittable<Nullable<String>>,
    pub item_id: String,
    pub extra: ExtraFields,
}

impl RealtimeServerEventInputAudioBufferCommitted {
    /// Members not modelled here, kept as received.
    pub fn extra_fields(&self) -> (r: &ExtraFields)
        ensures
            r@ == self.extra@,
    {
        &self.extra
    }
}

/// Server VAD detected speech start (`input_audio_buffer.speech_started`).
#[derive(Clone, Debug)]
pub struct RealtimeServerEventInputAudioBufferSpeechStarted {
    pub event_id: String,
    pub audio_start_ms: i64,
    pub item_id: String,
    pub extra: ExtraFields,
}

impl RealtimeServerEventInputAudioBufferSpeechStarted {
    /// Members not modelled here, kept as received.
    pub fn extra_fields(&self) -> (r: &ExtraFields)
        ensures
            r@ == self.extra@,
    {
        &self.extra
    }
}

/// Server VAD detected speech stop (`input_audio_buffer.speech_stopped`).
#[derive(Clone, Debug)]
pub struct RealtimeServerEventInputAudioBufferSpeechStopped {
    pub event_id: String,
    pub audio_end_ms: i64,
    pub item_id: String,
    pub extra: ExtraFields,
}

impl RealtimeServerEventInputAudioBufferSpeechStopped {
    /// Members not modelled here, kept as received.
    pub fn extra_fields(&self) -> (r: &ExtraFields)
        ensures
            r@ == self.extra@,
    {
        &self.extra
    }
}

/// Current request and token rate limits (`rate_limits.updated`).
#[derive(Clone, Debug)]
pub struct RealtimeServerEventRateLimitsUpdated {
    pub event_id: String,
    pub rate_limits: Vec<RealtimeRateLimit>,
    pub extra: ExtraFields,
}

impl RealtimeServerEventRateLimitsUpdated {
    /// Members not modelled here, kept as received.
    pub fn extra_fields(&self) -> (r: &ExtraFields)
        ensures
            r@ == self.extra@,
    {
        &self.extra
    }
}

/// Base64-decoded output audio delta (`response.output_audio.delta`).
#[derive(Clone)]
pub struct RealtimeServerEventResponseAudioDelta {
    pub event_id: String,
    pub response_id: String,
    pub item_id: String,
    pub output_index: i64,
    pub content_index: i64,
    pub delta: RealtimeAudio,
    pub extra: ExtraFields,
}

impl RealtimeServerEventResponseAudioDelta {
    /// Members not modelled here, kept as received.
    pub fn extra_fields(&self) -> (r: &ExtraFields)
        ensures
            r@ == self.extra@,
    {
        &self.extra
    }
}

/// Output audio stream completed (`response.output_audio.done`).
#[derive(Clone, Debug)]
pub struct RealtimeServerEventResponseAudioDone {
    pub event_id: String,
    pub response_id: String,
    pub item_id: String,
    pub output_index: i64,
    pub content_index: i64,
    pub extra: ExtraFields,
}

impl RealtimeServerEventResponseAudioDone {
    /// Members not modelled here, kept as received.
    pub fn extra_fields(&self) -> (r: &ExtraFields)
        ensures
            r@ == self.extra@,
    {
        &self.extra
    }
}

/// Output-audio transcript delta (`response.output_audio_transcript.delta`).
#[derive(Clone, Debug)]
pub struct RealtimeServerEventResponseAudioTranscriptDelta {
    pub event_id: String,
    pub response_id: String,
    pub item_id: String,
    pub output_index: i64,
    pub content_index: i64,
    pub delta: String,
    pub extra: ExtraFields,
}

impl RealtimeServerEventResponseAudioTranscriptDelta {
    /// Members not modelled here, kept as received.
    pub fn extra_fields(&self) -> (r: &ExtraFields)
        ensures
            r@ == self.extra@,
    {
        &self.extra
    }
}

/// Final output-audio transcript (`response.output_audio_transcript.done`).
#[derive(Clone, Debug)]
pub struct RealtimeServerEventResponseAudioTranscriptDone {
    pub event_id: String,
    pub response_id: String,
    pub item_id: String,
    pub output_index: i64,
    pub content_index: i64,
    pub transcript: String,
    pub extra: ExtraFields,
}

impl RealtimeServerEventResponseAudioTranscriptDone {
    /// Members not modelled here, kept as received.
    pub fn extra_fields(&self) -> (r: &ExtraFields)
        ensures
            r@ == self.extra@,
    {
        &self.extra
    }
}

/// A response content part was added (`response.content_part.added`).
#[derive(Clone)]
pub struct RealtimeServerEventResponseContentPartAdded {
    pub event_id: String,
    pub response_id: String,
    pub item_id: String,
    pub output_index: i64,
    pub content_index: i64,
    pub part: RealtimeResponseContentPart,
    pub extra: ExtraFields,
}

impl RealtimeServerEventResponseContentPartAdded {
    /// Members not modelled here, kept as received.
    pub fn extra_fields(&self) -> (r: &ExtraFields)
        ensures
            r@ == self.extra@,
    {
        &self.extra
    }
}

/// A response content part completed (`response.content_part.done`).
#[derive(Clone)]
pub struct RealtimeServerEventResponseContentPartDone {
    pub event_id: String,
    pub response_id: String,
    pub item_id: String,
    pub output_index: i64,
    pub content_index: i64,
    pub part: RealtimeResponseContentPart,
    pub extra: ExtraFields,
}

impl RealtimeServerEventResponseContentPartDone {
    /// Members not modelled here, kept as received.
    pub fn extra_fields(&self) -> (r: &ExtraFields)
        ensures
            r@ == self.extra@,
    {
        &self.extra
    }
}

/// A Realtime response was created (`response.created`).
pub struct RealtimeServerEventResponseCreated {
    pub event_id: String,
    pub response: RealtimeResponse,
    pub extra: ExtraFields,
}

impl RealtimeServerEventResponseCreated {
    /// Members not modelled here, kept as received.
    pub fn extra_fields(&self) -> (r: &ExtraFields)
        ensures
            r@ == self.extra@,
    {
        &self.extra
    }
}

/// A Realtime response reached a terminal state (`response.done`).
pub struct RealtimeServerEventResponseDone {
    pub event_id: String,
    pub response: RealtimeResponse,
    pub extra: ExtraFields,
}

impl RealtimeServerEventResponseDone {
    /// Members not modelled here, kept as received.
    pub fn extra_fields(&self) -> (r: &ExtraFields)
        ensures
            r@ == self.extra@,
    {
        &self.extra
    }
}

/// Incremental function-call arguments (`response.function_call_arguments.delta`).
#[derive(Clone, Debug)]
pub struct RealtimeServerEventResponseFunctionCallArgumentsDelta {
    pub event_id: String,
    pub response_id: String,
    pub item_id: String,
    pub output_index: i64,
    pub call_id: String,
    pub delta: String,
    pub extra: ExtraFields,
}

impl RealtimeServerEventResponseFunctionCallArgumentsDelta {
    /// Members not modelled here, kept as received.
    pub fn extra_fields(&self) -> (r: &ExtraFields)
        ensures
            r@ == self.extra@,
    {
        &self.extra
    }
}

/// Final function-call arguments (`response.function_call_arguments.done`).
#[derive(Debug)]
pub struct RealtimeServerEventResponseFunctionCallArgumentsDone {
    pub event_id: String,
    pub response_id: String,
    pub item_id: String,
    pub output_index: i64,
    pub call_id: String,
    pub name: String,
    pub arguments: JsonText,
    pub extra: ExtraFields,
}

impl RealtimeServerEventResponseFunctionCallArgumentsDone {
    /// Members not modelled here, kept as received.
    pub fn extra_fields(&self) -> (r: &ExtraFields)
        ensures
            r@ == self.extra@,
    {
        &self.extra
    }
}

/// A response output item was added (`response.output_item.added`).
pub struct RealtimeServerEventResponseOutputItemAdded {
    pub event_id: String,
    pub response_id: String,
    pub output_index: i64,
    pub item: RealtimeConversationItem,
    pub extra: ExtraFields,
}

impl RealtimeServerEventResponseOutputItemAdded {
    /// Members not modelled here, kept as received.
    pub fn extra_fields(&self) -> (r: &ExtraFields)
        ensures
            r@ == self.extra@,
    {
        &self.extra
    }
}

/// A response output item completed (`response.output_item.done`).
pub struct RealtimeServerEventResponseOutputItemDone {
    pub event_id: String,
    pub response_id: String,
    pub output_index: i64,
    pub item: RealtimeConversationItem,
    pub extra: ExtraFields,
}

impl RealtimeServerEventResponseOutputItemDone {
    /// Members not modelled here, kept as received.
    pub fn extra_fields(&self) -> (r: &ExtraFields)
        ensures
            r@ == self.extra@,
    {
        &self.extra
    }
}

/// Incremental output text (`response.output_text.delta`).
#[derive(Clone, Debug)]
pub struct RealtimeServerEventResponseTextDelta {
    pub event_id: String,
    pub response_id: String,
    pub item_id: String,
    pub output_index: i64,
    pub content_index: i64,
    pub delta: String,
    pub extra: ExtraFields,
}

impl RealtimeServerEventResponseTextDelta {
    /// Members not modelled here, kept as received.
    pub fn extra_fields(&self) -> (r: &ExtraFields)
        ensures
            r@ == self.extra@,
    {
        &self.extra
    }
}

/// Final output text (`response.output_text.done`).
#[derive(Clone, Debug)]
pub struct RealtimeServerEventResponseTextDone {
    pub event_id: String,
    pub response_id: String,
    pub item_id: String,
    pub output_index: i64,
    pub content_index: i64,
    pub text: String,
    pub extra: ExtraFields,
}

impl RealtimeServerEventResponseTextDone {
    /// Members not modelled here, kept as received.
    pub fn extra_fields(&self) -> (r: &ExtraFields)
        ensures
            r@ == self.extra@,
    {
        &self.extra
    }
}

/// Initial effective session configuration (`session.created`).
#[derive(Clone, Debug)]
pub struct RealtimeServerEventSessionCreated {
    pub event_id: String,
    pub session: RealtimeSessionState,
    pub extra: ExtraFields,
}

impl RealtimeServerEventSessionCreated {
    /// Members not modelled here, kept as received.
    pub fn extra_fields(&self) -> (r: &ExtraFields)
        ensures
            r@ == self.extra@,
    {
        &self.extra
    }
}

/// Updated effective session configuration (`session.updated`).
#[derive(Clone, Debug)]
pub struct RealtimeServerEventSessionUpdated {
    pub event_id: String,
    pub session: RealtimeSessionState,
    pub extra: ExtraFields,
}

impl RealtimeServerEventSessionUpdated {
    /// Members not modelled here, kept as received.
    pub fn extra_fields(&self) -> (r: &ExtraFields)
        ensures
            r@ == self.extra@,
    {
        &self.extra
    }
}

/// Client playback of one response started (`output_audio_buffer.started`).
#[derive(Clone, Debug)]
pub struct RealtimeServerEventOutputAudioBufferStarted {
    pub event_id: String,
    pub response_id: String,
    pub extra: ExtraFields,
}

impl RealtimeServerEventOutputAudioBufferStarted {
    /// Members not modelled here, kept as received.
    pub fn extra_fields(&self) -> (r: &ExtraFields)
        ensures
            r@ == self.extra@,
    {
        &self.extra
    }
}

/// Client playback of one response stopped (`output_audio_buffer.stopped`).
#[derive(Clone, Debug)]
pub struct RealtimeServerEventOutputAudioBufferStopped {
    pub event_id: String,
    pub response_id: String,
    pub extra: ExtraFields,
}

impl RealtimeServerEventOutputAudioBufferStopped {
    /// Members not modelled here, kept as received.
    pub fn extra_fields(&self) -> (r: &ExtraFields)
        ensures
            r@ == self.extra@,
    {
        &self.extra
    }
}

/// Client playback buffer was cleared (`output_audio_buffer.cleared`).
#[derive(Clone, Debug)]
pub struct RealtimeServerEventOutputAudioBufferCleared {
    pub event_id: String,
    pub response_id: String,
    pub extra: ExtraFields,
}

impl RealtimeServerEventOutputAudioBufferCleared {
    /// Members not modelled here, kept as received.
    pub fn extra_fields(&self) -> (r: &ExtraFields)
        ensures
            r@ == self.extra@,
    {
        &self.extra
    }
}

/// An item was appended to the conversation (`conversation.item.added`).
pub struct RealtimeServerEventConversationItemAdded {
    pub event_id: String,
    pub previous_item_id: Omittable<Nullable<String>>,
    pub item: RealtimeConversationItem,
    pub extra: ExtraFields,
}

impl RealtimeServerEventConversationItemAdded {
    /// Members not modelled here, kept as received.
    pub fn extra_fields(&self) -> (r: &ExtraFields)
        ensures
            r@ == self.extra@,
    {
        &self.extra
    }
}

/// Conversation item processing completed (`conversation.item.done`).
pub struct RealtimeServerEventConversationItemDone {
    pub event_id: String,
    pub previous_item_id: Omittable<Nullable<String>>,
    pub item: RealtimeConversationItem,
    pub extra: ExtraFields,
}

impl RealtimeServerEventConversationItemDone {
    /// Members not modelled here, kept as received.
    pub fn extra_fields(&self) -> (r: &ExtraFields)
        ensures
            r@ == self.extra@,
    {
        &self.extra
    }
}

/// Idle timeout triggered a model response (`input_audio_buffer.timeout_triggered`).
#[derive(Clone, Debug)]
pub struct RealtimeServerEventInputAudioBufferTimeoutTriggered {
    pub event_id: String,
    pub audio_start_ms: i64,
    pub audio_end_ms: i64,
    pub item_id: String,
    pub extra: ExtraFields,
}

impl RealtimeServerEventInputAudioBufferTimeoutTriggered {
    /// Members not modelled here, kept as received.
    pub fn extra_fields(&self) -> (r: &ExtraFields)
        ensures
            r@ == self.extra@,
    {
        &self.extra
    }
}

/// Speaker-attributed transcription segment (`conversation.item.input_audio_transcription.segment`).
#[derive(Clone, Debug)]
pub struct RealtimeServerEventConversationItemInputAudioTranscriptionSegment {
    pub event_id: String,
    pub item_id: String,
    pub content_index: i64,
    pub text: String,
    pub id: String,
    pub speaker: String,
    /// Seconds, as their JSON number text.
    pub start: String,
    /// Seconds, as their JSON number text.
    pub end: String,
    pub extra: ExtraFields,
}

impl RealtimeServerEventConversationItemInputAudioTranscriptionSegment {
    /// Members not modelled here, kept as received.
    pub fn extra_fields(&self) -> (r: &ExtraFields)
        ensures
            r@ == self.extra@,
    {
        &self.extra
    }
}

/// MCP tool discovery started (`mcp_list_tools.in_progress`).
#[derive(Clone, Debug)]
pub struct RealtimeServerEventMCPListToolsInProgress {
    pub event_id: String,
    pub item_id: String,
    pub extra: ExtraFields,
}

impl RealtimeServerEventMCPListToolsInProgress {
    /// Members not modelled here, kept as received.
    pub fn extra_fields(&self) -> (r: &ExtraFields)
        ensures
            r@ == self.extra@,
    {
        &self.extra
    }
}

/// MCP tool discovery completed (`mcp_list_tools.completed`).
#[derive(Clone, Debug)]
pub struct RealtimeServerEventMCPListToolsCompleted {
    pub event_id: String,
    pub item_id: String,
    pub extra: ExtraFields,
}

impl RealtimeServerEventMCPListToolsCompleted {
    /// Members not modelled here, kept as received.
    pub fn extra_fields(&self) -> (r: &ExtraFields)
        ensures
            r@ == self.extra@,
    {
        &self.extra
    }
}

/// MCP tool discovery failed (`mcp_list_tools.failed`).
#[derive(Clone, Debug)]
pub struct RealtimeServerEventMCPListToolsFailed {
    pub event_id: String,
    pub item_id: String,
    pub extra: ExtraFields,
}

impl RealtimeServerEventMCPListToolsFailed {
    /// Members not modelled here, kept as received.
    pub fn extra_fields(&self) -> (r: &ExtraFields)
        ensures
            r@ == self.extra@,
    {
        &self.extra
    }
}

/// Incremental MCP call arguments (`response.mcp_call_arguments.delta`).
#[derive(Clone, Debug)]
pub struct RealtimeServerEventResponseMCPCallArgumentsDelta {
    pub event_id: String,
    pub response_id: String,
    pub item_id: String,
    pub output_index: i64,
    pub delta: String,
    pub obfuscation: Omittable<Nullable<String>>,
    pub extra: ExtraFields,
}

impl RealtimeServerEventResponseMCPCallArgumentsDelta {
    /// Members not modelled here, kept as received.
    pub fn extra_fields(&self) -> (r: &ExtraFields)
        ensures
            r@ == self.extra@,
    {
        &self.extra
    }
}

/// Final MCP call arguments (`response.mcp_call_arguments.done`).
#[derive(Debug)]
pub struct RealtimeServerEventResponseMCPCallArgumentsDone {
    pub event_id: String,
    pub response_id: String,
    pub item_id: String,
    pub output_index: i64,
    pub arguments: JsonText,
    pub extra: ExtraFields,
}

impl RealtimeServerEventResponseMCPCallArgumentsDone {
    /// Members not modelled here, kept as received.
    pub fn extra_fields(&self) -> (r: &ExtraFields)
        ensures
            r@ == self.extra@,
    {
        &self.extra
    }
}

/// MCP tool call began (`response.mcp_call.in_progress`).
#[derive(Clone, Debug)]
pub struct RealtimeServerEventResponseMCPCallInProgress {
    pub event_id: String,
    pub output_index: i64,
    pub item_id: String,
    pub extra: ExtraFields,
}

impl RealtimeServerEventResponseMCPCallInProgress {
    /// Members not modelled here, kept as received.
    pub fn extra_fields(&self) -> (r: &ExtraFields)
        ensures
            r@ == self.extra@,
    {
        &self.extra
    }
}

/// MCP tool call completed (`response.mcp_call.completed`).
#[derive(Clone, Debug)]
pub struct RealtimeServerEventResponseMCPCallCompleted {
    pub event_id: String,
    pub output_index: i64,
    pub item_id: String,
    pub extra: ExtraFields,
}

impl RealtimeServerEventResponseMCPCallCompleted {
    /// Members not modelled here, kept as received.
    pub fn extra_fields(&self) -> (r: &ExtraFields)
        ensures
            r@ == self.extra@,
    {
        &self.extra
    }
}

/// MCP tool call failed (`response.mcp_call.failed`).
#[derive(Clone, Debug)]
pub struct RealtimeServerEventResponseMCPCallFailed {
    pub event_id: String,
    pub output_index: i64,
    pub item_id: String,
    pub extra: ExtraFields,
}

impl RealtimeServerEventResponseMCPCallFailed {
    /// Members not modelled here, kept as received.
    pub fn extra_fields(&self) -> (r: &ExtraFields)
        ensures
            r@ == self.extra@,
    {
        &self.extra
    }
}

/// Translation session created with its effective configuration (`session.created`).
#[derive(Clone, Debug)]
pub struct RealtimeTranslationServerEventSessionCreated {
    pub event_id: String,
    pub session: RealtimeTranslationSession,
    pub extra: ExtraFields,
}

impl RealtimeTranslationServerEventSessionCreated {
    /// Members not modelled here, kept as received.
    pub fn extra_fields(&self) -> (r: &ExtraFields)
        ensures
            r@ == self.extra@,
    {
        &self.extra
    }
}

/// Translation session updated after `session.update` (`session.updated`).
#[derive(Clone, Debug)]
pub struct RealtimeTranslationServerEventSessionUpdated {
    pub event_id: String,
    pub session: RealtimeTranslationSession,
    pub extra: ExtraFields,
}

impl RealtimeTranslationServerEventSessionUpdated {
    /// Members not modelled here, kept as received.
    pub fn extra_fields(&self) -> (r: &ExtraFields)
        ensures
            r@ == self.extra@,
    {
        &self.extra
    }
}

/// Translation session closed (`session.closed`).
#[derive(Clone, Debug)]
pub struct RealtimeTranslationServerEventSessionClosed {
    pub event_id: String,
    pub extra: ExtraFields,
}

impl RealtimeTranslationServerEventSessionClosed {
    /// Members not modelled here, kept as received.
    pub fn extra_fields(&self) -> (r: &ExtraFields)
        ensures
            r@ == self.extra@,
    {
        &self.extra
    }
}

/// Optional source-language transcript delta (`session.input_transcript.delta`).
#[derive(Clone, Debug)]
pub struct RealtimeTranslationServerEventSessionInputTranscriptDelta {
    pub event_id: String,
    pub delta: String,
    pub elapsed_ms: Omittable<Nullable<u64>>,
    pub extra: ExtraFields,
}

impl RealtimeTranslationServerEventSessionInputTranscriptDelta {
    /// Members not modelled here, kept as received.
    pub fn extra_fields(&self) -> (r: &ExtraFields)
        ensures
            r@ == self.extra@,
    {
        &self.extra
    }
}

/// Translated transcript text delta (`session.output_transcript.delta`).
#[derive(Clone, Debug)]
pub struct RealtimeTranslationServerEventSessionOutputTranscriptDelta {
    pub event_id: String,
    pub delta: String,
    pub elapsed_ms: Omittable<Nullable<u64>>,
    pub extra: ExtraFields,
}

impl RealtimeTranslationServerEventSessionOutputTranscriptDelta {
    /// Members not modelled here, kept as received.
    pub fn extra_fields(&self) -> (r: &ExtraFields)
        ensures
            r@ == self.extra@,
    {
        &self.extra
    }
}

/// Translated PCM16 audio delta (`session.output_audio.delta`).
#[derive(Clone)]
pub struct RealtimeTranslationServerEventSessionOutputAudioDelta {
    pub event_id: String,
    pub delta: RealtimeAudio,
    pub sample_rate: Omittable<u32>,
    pub channels: Omittable<u32>,
    pub format: Omittable<RealtimeTranslationAudioFormat>,
    pub elapsed_ms: Omittable<Nullable<u64>>,
    pub extra: ExtraFields,
}

impl RealtimeTranslationServerEventSessionOutputAudioDelta {
    /// Members not modelled here, kept as received.
    pub fn extra_fields(&self) -> (r: &ExtraFields)
        ensures
            r@ == self.extra@,
    {
        &self.extra
    }
}

/// Events a Realtime server sends; an event of a `type` not modelled here is kept whole.
pub enum RealtimeServerEvent {
    ConversationCreated(Box<RealtimeServerEventConversationCreated>),
    ConversationItemCreated(Box<RealtimeServerEventConversationItemCreated>),
    ConversationItemDeleted(Box<RealtimeServerEventConversationItemDeleted>),
    InputAudioTranscriptionCompleted(Box<RealtimeServerEventConversationItemInputAudioTranscriptionCompleted>),
    InputAudioTranscriptionDelta(Box<RealtimeServerEventConversationItemInputAudioTranscriptionDelta>),
    InputAudioTranscriptionFailed(Box<RealtimeServerEventConversationItemInputAudioTranscriptionFailed>),
    ConversationItemRetrieved(Box<RealtimeServerEventConversationItemRetrieved>),
    ConversationItemTruncated(Box<RealtimeServerEventConversationItemTruncated>),
    Error(Box<RealtimeServerEventError>),
    InputAudioBufferCleared(Box<RealtimeServerEventInputAudioBufferCleared>),
    InputAudioBufferCommitted(Box<RealtimeServerEventInputAudioBufferCommitted>),
    InputAudioBufferDtmfEventReceived(Box<RealtimeServerEventInputAudioBufferDtmfEventReceived>),
    InputAudioBufferSpeechStarted(Box<RealtimeServerEventInputAudioBufferSpeechStarted>),
    InputAudioBufferSpeechStopped(Box<RealtimeServerEventInputAudioBufferSpeechStopped>),
    RateLimitsUpdated(Box<RealtimeServerEventRateLimitsUpdated>),
    ResponseAudioDelta(Box<RealtimeServerEventResponseAudioDelta>),
    ResponseAudioDone(Box<RealtimeServerEventResponseAudioDone>),
    ResponseAudioTranscriptDelta(Box<RealtimeServerEventResponseAudioTranscriptDelta>),
    ResponseAudioTranscriptDone(Box<RealtimeServerEventResponseAudioTranscriptDone>),
    ResponseContentPartAdded(Box<RealtimeServerEventResponseContentPartAdded>),
    ResponseContentPartDone(Box<RealtimeServerEventResponseContentPartDone>),
    ResponseCreated(Box<RealtimeServerEventResponseCreated>),
    ResponseDone(Box<RealtimeServerEventResponseDone>),
    ResponseFunctionCallArgumentsDelta(Box<RealtimeServerEventResponseFunctionCallArgumentsDelta>),
    ResponseFunctionCallArgumentsDone(Box<RealtimeServerEventResponseFunctionCallArgumentsDone>),
    ResponseOutputItemAdded(Box<RealtimeServerEventResponseOutputItemAdded>),
    ResponseOutputItemDone(Box<RealtimeServerEventResponseOutputItemDone>),
    ResponseTextDelta(Box<RealtimeServerEventResponseTextDelta>),
    ResponseTextDone(Box<RealtimeServerEventResponseTextDone>),
    SessionCreated(Box<RealtimeServerEventSessionCreated>),
    SessionUpdated(Box<RealtimeServerEventSessionUpdated>),
    OutputAudioBufferStarted(Box<RealtimeServerEventOutputAudioBufferStarted>),
    OutputAudioBufferStopped(Box<RealtimeServerEventOutputAudioBufferStopped>),
    OutputAudioBufferCleared(Box<RealtimeServerEventOutputAudioBufferCleared>),
    ConversationItemAdded(Box<RealtimeServerEventConversationItemAdded>),
    ConversationItemDone(Box<RealtimeServerEventConversationItemDone>),
    InputAudioBufferTimeoutTriggered(Box<RealtimeServerEventInputAudioBufferTimeoutTriggered>),
    InputAudioTranscriptionSegment(Box<RealtimeServerEventConversationItemInputAudioTranscriptionSegment>),
    McpListToolsInProgress(Box<RealtimeServerEventMCPListToolsInProgress>),
    McpListToolsCompleted(Box<RealtimeServerEventMCPListToolsCompleted>),
    McpListToolsFailed(Box<RealtimeServerEventMCPListToolsFailed>),
    ResponseMcpCallArgumentsDelta(Box<RealtimeServerEventResponseMCPCallArgumentsDelta>),
    ResponseMcpCallArgumentsDone(Box<RealtimeServerEventResponseMCPCallArgumentsDone>),
    ResponseMcpCallInProgress(Box<RealtimeServerEventResponseMCPCallInProgress>),
    ResponseMcpCallCompleted(Box<RealtimeServerEventResponseMCPCallCompleted>),
    ResponseMcpCallFailed(Box<RealtimeServerEventResponseMCPCallFailed>),
    Unknown(UnknownRealtimeObject),
}

/// The variant a `type` tag of events a Realtime server sends selects.
#[derive(Debug, Clone, Copy, PartialEq, Eq, Structural)]
pub enum RealtimeServerEventKind {
    ConversationCreated,
    ConversationItemCreated,
    ConversationItemDeleted,
    InputAudioTranscriptionCompleted,
    InputAudioTranscriptionDelta,
    InputAudioTranscriptionFailed,
    ConversationItemRetrieved,
    ConversationItemTruncated,
    Error,
    InputAudioBufferCleared,
    InputAudioBufferCommitted,
    InputAudioBufferDtmfEventReceived,
    InputAudioBufferSpeechStarted,
    InputAudioBufferSpeechStopped,
    RateLimitsUpdated,
    ResponseAudioDelta,
    ResponseAudioDone,
    ResponseAudioTranscriptDelta,
    ResponseAudioTranscriptDone,
    ResponseContentPartAdded,
    ResponseContentPartDone,
    ResponseCreated,
    ResponseDone,
    ResponseFunctionCallArgumentsDelta,
    ResponseFunctionCallArgumentsDone,
    ResponseOutputItemAdded,
    ResponseOutputItemDone,
    ResponseTextDelta,
    ResponseTextDone,
    SessionCreated,
    SessionUpdated,
    OutputAudioBufferStarted,
    OutputAudioBufferStopped,
    OutputAudioBufferCleared,
    ConversationItemAdded,
    ConversationItemDone,
    InputAudioBufferTimeoutTriggered,
    InputAudioTranscriptionSegment,
    McpListToolsInProgress,
    McpListToolsCompleted,
    McpListToolsFailed,
    ResponseMcpCallArgumentsDelta,
    ResponseMcpCallArgumentsDone,
    ResponseMcpCallInProgress,
    ResponseMcpCallCompleted,
    ResponseMcpCallFailed,
    Unknown,
}

impl RealtimeServerEventKind {
    /// The kind a tag selects.
    pub open spec fn of_tag(tag: Seq<char>) -> Self {
        if tag == "conversation.created"@ {
            RealtimeServerEventKind::ConversationCreated
        } else if tag == "conversation.item.created"@ {
            RealtimeServerEventKind::ConversationItemCreated
        } else if tag == "conversation.item.deleted"@ {
            RealtimeServerEventKind::ConversationItemDeleted
        } else if tag == "conversation.item.input_audio_transcription.completed"@ {
            RealtimeServerEventKind::InputAudioTranscriptionCompleted
        } else if tag == "conversation.item.input_audio_transcription.delta"@ {
            RealtimeServerEventKind::InputAudioTranscriptionDelta
        } else if tag == "conversation.item.input_audio_transcription.failed"@ {
            RealtimeServerEventKind::InputAudioTranscriptionFailed
        } else if tag == "conversation.item.retrieved"@ {
            RealtimeServerEventKind::ConversationItemRetrieved
        } else if tag == "conversation.item.truncated"@ {
            RealtimeServerEventKind::ConversationItemTruncated
        } else if tag == "error"@ {
            RealtimeServerEventKind::Error
        } else if tag == "input_audio_buffer.cleared"@ {
            RealtimeServerEventKind::InputAudioBufferCleared
        } else if tag == "input_audio_buffer.committed"@ {
            RealtimeServerEventKind::InputAudioBufferCommitted
        } else if tag == "input_audio_buffer.dtmf_event_received"@ {
            RealtimeServerEventKind::InputAudioBufferDtmfEventReceived
        } else if tag == "input_audio_buffer.speech_started"@ {
            RealtimeServerEventKind::InputAudioBufferSpeechStarted
        } else if tag == "input_audio_buffer.speech_stopped"@ {
            RealtimeServerEventKind::InputAudioBufferSpeechStopped
        } else if tag == "rate_limits.updated"@ {
            RealtimeServerEventKind::RateLimitsUpdated
        } else if tag == "response.output_audio.delta"@ {
            RealtimeServerEventKind::ResponseAudioDelta
        } else if tag == "response.output_audio.done"@ {
            RealtimeServerEventKind::ResponseAudioDone
        } else if tag == "response.output_audio_transcript.delta"@ {
            RealtimeServerEventKind::ResponseAudioTranscriptDelta
        } else if tag == "response.output_audio_transcript.done"@ {
            RealtimeServerEventKind::ResponseAudioTranscriptDone
        } else if tag == "response.content_part.added"@ {
            RealtimeServerEventKind::ResponseContentPartAdded
        } else if tag == "response.content_part.done"@ {
            RealtimeServerEventKind::ResponseContentPartDone
        } else if tag == "response.created"@ {
            RealtimeServerEventKind::ResponseCreated
        } else if tag == "response.done"@ {
            RealtimeServerEventKind::ResponseDone
        } else if tag == "response.function_call_arguments.delta"@ {
            RealtimeServerEventKind::ResponseFunctionCallArgumentsDelta
        } else if tag == "response.function_call_arguments.done"@ {
            RealtimeServerEventKind::ResponseFunctionCallArgumentsDone
        } else if tag == "response.output_item.added"@ {
            RealtimeServerEventKind::ResponseOutputItemAdded
        } else if tag == "response.output_item.done"@ {
            RealtimeServerEventKind::ResponseOutputItemDone
        } else if tag == "response.output_text.delta"@ {
            RealtimeServerEventKind::ResponseTextDelta
        } else if tag == "response.output_text.done"@ {
            RealtimeServerEventKind::ResponseTextDone
        } else if tag == "session.created"@ {
            RealtimeServerEventKind::SessionCreated
        } else if tag == "session.updated"@ {
            RealtimeServerEventKind::SessionUpdated
        } else if tag == "output_audio_buffer.started"@ {
            RealtimeServerEventKind::OutputAudioBufferStarted
        } else if tag == "output_audio_buffer.stopped"@ {
            RealtimeServerEventKind::OutputAudioBufferStopped
        } else if tag == "output_audio_buffer.cleared"@ {
            RealtimeServerEventKind::OutputAudioBufferCleared
        } else if tag == "conversation.item.added"@ {
            RealtimeServerEventKind::ConversationItemAdded
        } else if tag == "conversation.item.done"@ {
            RealtimeServerEventKind::ConversationItemDone
        } else if tag == "input_audio_buffer.timeout_triggered"@ {
            RealtimeServerEventKind::InputAudioBufferTimeoutTriggered
        } else if tag == "conversation.item.input_audio_transcription.segment"@ {
            RealtimeServerEventKind::InputAudioTranscriptionSegment
        } else if tag == "mcp_list_tools.in_progress"@ {
            RealtimeServerEventKind::McpListToolsInProgress
        } else if tag == "mcp_list_tools.completed"@ {
            RealtimeServerEventKind::McpListToolsCompleted
        } else if tag == "mcp_list_tools.failed"@ {
            RealtimeServerEventKind::McpListToolsFailed
        } else if tag == "response.mcp_call_arguments.delta"@ {
            RealtimeServerEventKind::ResponseMcpCallArgumentsDelta
        } else if tag == "response.mcp_call_arguments.done"@ {
            RealtimeServerEventKind::ResponseMcpCallArgumentsDone
        } else if tag == "response.mcp_call.in_progress"@ {
            RealtimeServerEventKind::ResponseMcpCallInProgress
        } else if tag == "response.mcp_call.completed"@ {
            RealtimeServerEventKind::ResponseMcpCallCompleted
        } else if tag == "response.mcp_call.failed"@ {
            RealtimeServerEventKind::ResponseMcpCallFailed
        } else {
            RealtimeServerEventKind::Unknown
        }
    }

    /// The kind a decoded event's `type` tag selects.
    pub fn from_tag(tag: &str) -> (r: Self)
        ensures
            r == Self::of_tag(tag@),
    {
        if chars_eq(tag, "conversation.created") {
            RealtimeServerEventKind::ConversationCreated
        } else if chars_eq(tag, "conversation.item.created") {
            RealtimeServerEventKind::ConversationItemCreated
        } else if chars_eq(tag, "conversation.item.deleted") {
            RealtimeServerEventKind::ConversationItemDeleted
        } else if chars_eq(tag, "conversation.item.input_audio_transcription.completed") {
            RealtimeServerEventKind::InputAudioTranscriptionCompleted
        } else if chars_eq(tag, "conversation.item.input_audio_transcription.delta") {
            RealtimeServerEventKind::InputAudioTranscriptionDelta
        } else if chars_eq(tag, "conversation.item.input_audio_transcription.failed") {
            RealtimeServerEventKind::InputAudioTranscriptionFailed
        } else if chars_eq(tag, "conversation.item.retrieved") {
            RealtimeServerEventKind::ConversationItemRetrieved
        } else if chars_eq(tag, "conversation.item.truncated") {
            RealtimeServerEventKind::ConversationItemTruncated
        } else if chars_eq(tag, "error") {
            RealtimeServerEventKind::Error
        } else if chars_eq(tag, "input_audio_buffer.cleared") {
            RealtimeServerEventKind::InputAudioBufferCleared
        } else if chars_eq(tag, "input_audio_buffer.committed") {
            RealtimeServerEventKind::InputAudioBufferCommitted
        } else if chars_eq(tag, "input_audio_buffer.dtmf_event_received") {
            RealtimeServerEventKind::InputAudioBufferDtmfEventReceived
        } else if chars_eq(tag, "input_audio_buffer.speech_started") {
            RealtimeServerEventKind::InputAudioBufferSpeechStarted
        } else if chars_eq(tag, "input_audio_buffer.speech_stopped") {
            RealtimeServerEventKind::InputAudioBufferSpeechStopped
        } else if chars_eq(tag, "rate_limits.updated") {
            RealtimeServerEventKind::RateLimitsUpdated
        } else if chars_eq(tag, "response.output_audio.delta") {
            RealtimeServerEventKind::ResponseAudioDelta
        } else if chars_eq(tag, "response.output_audio.done") {
            RealtimeServerEventKind::ResponseAudioDone
        } else if chars_eq(tag, "response.output_audio_transcript.delta") {
            RealtimeServerEventKind::ResponseAudioTranscriptDelta
        } else if chars_eq(tag, "response.output_audio_transcript.done") {
            RealtimeServerEventKind::ResponseAudioTranscriptDone
        } else if chars_eq(tag, "response.content_part.added") {
            RealtimeServerEventKind::ResponseContentPartAdded
        } else if chars_eq(tag, "response.content_part.done") {
            RealtimeServerEventKind::ResponseContentPartDone
        } else if chars_eq(tag, "response.created") {
            RealtimeServerEventKind::ResponseCreated
        } else if chars_eq(tag, "response.done") {
            RealtimeServerEventKind::ResponseDone
        } else if chars_eq(tag, "response.function_call_arguments.delta") {
            RealtimeServerEventKind::ResponseFunctionCallArgumentsDelta
        } else if chars_eq(tag, "response.function_call_arguments.done") {
            RealtimeServerEventKind::ResponseFunctionCallArgumentsDone
        } else if chars_eq(tag, "response.output_item.added") {
            RealtimeServerEventKind::ResponseOutputItemAdded
        } else if chars_eq(tag, "response.output_item.done") {
            RealtimeServerEventKind::ResponseOutputItemDone
        } else if chars_eq(tag, "response.output_text.delta") {
            RealtimeServerEventKind::ResponseTextDelta
        } else if chars_eq(tag, "response.output_text.done") {
            RealtimeServerEventKind::ResponseTextDone
        } else if chars_eq(tag, "session.created") {
            RealtimeServerEventKind::SessionCreated
        } else if chars_eq(tag, "session.updated") {
            RealtimeServerEventKind::SessionUpdated
        } else if chars_eq(tag, "output_audio_buffer.started") {
            RealtimeServerEventKind::OutputAudioBufferStarted
        } else if chars_eq(tag, "output_audio_buffer.stopped") {
            RealtimeServerEventKind::OutputAudioBufferStopped
        } else if chars_eq(tag, "output_audio_buffer.cleared") {
            RealtimeServerEventKind::OutputAudioBufferCleared
        } else if chars_eq(tag, "conversation.item.added") {
            RealtimeServerEventKind::ConversationItemAdded
        } else if chars_eq(tag, "conversation.item.done") {
            RealtimeServerEventKind::ConversationItemDone
        } else if chars_eq(tag, "input_audio_buffer.timeout_triggered") {
            RealtimeServerEventKind::InputAudioBufferTimeoutTriggered
        } else if chars_eq(tag, "conversation.item.input_audio_transcription.segment") {
            RealtimeServerEventKind::InputAudioTranscriptionSegment
        } else if chars_eq(tag, "mcp_list_tools.in_progress") {
            RealtimeServerEventKind::McpListToolsInProgress
        } else if chars_eq(tag, "mcp_list_tools.completed") {
            RealtimeServerEventKind::McpListToolsCompleted
        } else if chars_eq(tag, "mcp_list_tools.failed") {
            RealtimeServerEventKind::McpListToolsFailed
        } else if chars_eq(tag, "response.mcp_call_arguments.delta") {
            RealtimeServerEventKind::ResponseMcpCallArgumentsDelta
        } else if chars_eq(tag, "response.mcp_call_arguments.done") {
            RealtimeServerEventKind::ResponseMcpCallArgumentsDone
        } else if chars_eq(tag, "response.mcp_call.in_progress") {
            RealtimeServerEventKind::ResponseMcpCallInProgress
        } else if chars_eq(tag, "response.mcp_call.completed") {
            RealtimeServerEventKind::ResponseMcpCallCompleted
        } else if chars_eq(tag, "response.mcp_call.failed") {
            RealtimeServerEventKind::ResponseMcpCallFailed
        } else {
            RealtimeServerEventKind::Unknown
        }
    }
}

/// The wire tag of an event: fixed per variant, the received one for an
/// event kept whole.
pub open spec fn realtime_server_event_type_of(e: RealtimeServerEvent) -> Seq<char> {
    match e {
        RealtimeServerEvent::ConversationCreated(_) => "conversation.created"@,
        RealtimeServerEvent::ConversationItemCreated(_) => "conversation.item.created"@,
        RealtimeServerEvent::ConversationItemDeleted(_) => "conversation.item.deleted"@,
        RealtimeServerEvent::InputAudioTranscriptionCompleted(_) => "conversation.item.input_audio_transcription.completed"@,
        RealtimeServerEvent::InputAudioTranscriptionDelta(_) => "conversation.item.input_audio_transcription.delta"@,
        RealtimeServerEvent::InputAudioTranscriptionFailed(_) => "conversation.item.input_audio_transcription.failed"@,
        RealtimeServerEvent::ConversationItemRetrieved(_) => "conversation.item.retrieved"@,
        RealtimeServerEvent::ConversationItemTruncated(_) => "conversation.item.truncated"@,
        RealtimeServerEvent::Error(_) => "error"@,
        RealtimeServerEvent::InputAudioBufferCleared(_) => "input_audio_buffer.cleared"@,
        RealtimeServerEvent::InputAudioBufferCommitted(_) => "input_audio_buffer.committed"@,
        RealtimeServerEvent::InputAudioBufferDtmfEventReceived(_) => "input_audio_buffer.dtmf_event_received"@,
        RealtimeServerEvent::InputAudioBufferSpeechStarted(_) => "input_audio_buffer.speech_started"@,
        RealtimeServerEvent::InputAudioBufferSpeechStopped(_) => "input_audio_buffer.speech_stopped"@,
        RealtimeServerEvent::RateLimitsUpdated(_) => "rate_limits.updated"@,
        RealtimeServerEvent::ResponseAudioDelta(_) => "response.output_audio.delta"@,
        RealtimeServerEvent::ResponseAudioDone(_) => "response.output_audio.done"@,
        RealtimeServerEvent::ResponseAudioTranscriptDelta(_) => "response.output_audio_transcript.delta"@,
        RealtimeServerEvent::ResponseAudioTranscriptDone(_) => "response.output_audio_transcript.done"@,
        RealtimeServerEvent::ResponseContentPartAdded(_) => "response.content_part.added"@,
        RealtimeServerEvent::ResponseContentPartDone(_) => "response.content_part.done"@,
        RealtimeServerEvent::ResponseCreated(_) => "response.created"@,
        RealtimeServerEvent::ResponseDone(_) => "response.done"@,
        RealtimeServerEvent::ResponseFunctionCallArgumentsDelta(_) => "response.function_call_arguments.delta"@,
        RealtimeServerEvent::ResponseFunctionCallArgumentsDone(_) => "response.function_call_arguments.done"@,
        RealtimeServerEvent::ResponseOutputItemAdded(_) => "response.output_item.added"@,
        RealtimeServerEvent::ResponseOutputItemDone(_) => "response.output_item.done"@,
        RealtimeServerEvent::ResponseTextDelta(_) => "response.output_text.delta"@,
        RealtimeServerEvent::ResponseTextDone(_) => "response.output_text.done"@,
        RealtimeServerEvent::SessionCreated(_) => "session.created"@,
        RealtimeServerEvent::SessionUpdated(_) => "session.updated"@,
        RealtimeServerEvent::OutputAudioBufferStarted(_) => "output_audio_buffer.started"@,
        RealtimeServerEvent::OutputAudioBufferStopped(_) => "output_audio_buffer.stopped"@,
        RealtimeServerEvent::OutputAudioBufferCleared(_) => "output_audio_buffer.cleared"@,
        RealtimeServerEvent::ConversationItemAdded(_) => "conversation.item.added"@,
        RealtimeServerEvent::ConversationItemDone(_) => "conversation.item.done"@,
        RealtimeServerEvent::InputAudioBufferTimeoutTriggered(_) => "input_audio_buffer.timeout_triggered"@,
        RealtimeServerEvent::InputAudioTranscriptionSegment(_) => "conversation.item.input_audio_transcription.segment"@,
        RealtimeServerEvent::McpListToolsInProgress(_) => "mcp_list_tools.in_progress"@,
        RealtimeServerEvent::McpListToolsCompleted(_) => "mcp_list_tools.completed"@,
        RealtimeServerEvent::McpListToolsFailed(_) => "mcp_list_tools.failed"@,
        RealtimeServerEvent::ResponseMcpCallArgumentsDelta(_) => "response.mcp_call_arguments.delta"@,
        RealtimeServerEvent::ResponseMcpCallArgumentsDone(_) => "response.mcp_call_arguments.done"@,
        RealtimeServerEvent::ResponseMcpCallInProgress(_) => "response.mcp_call.in_progress"@,
        RealtimeServerEvent::ResponseMcpCallCompleted(_) => "response.mcp_call.completed"@,
        RealtimeServerEvent::ResponseMcpCallFailed(_) => "response.mcp_call.failed"@,
        RealtimeServerEvent::Unknown(u) => u@.0,
    }
}

/// The kind of a server event.
pub open spec fn realtime_server_event_kind_of(e: RealtimeServerEvent) -> RealtimeServerEventKind {
    match e {
        RealtimeServerEvent::ConversationCreated(_) => RealtimeServerEventKind::ConversationCreated,
        RealtimeServerEvent::ConversationItemCreated(_) => RealtimeServerEventKind::ConversationItemCreated,
        RealtimeServerEvent::ConversationItemDeleted(_) => RealtimeServerEventKind::ConversationItemDeleted,
        RealtimeServerEvent::InputAudioTranscriptionCompleted(_) => RealtimeServerEventKind::InputAudioTranscriptionCompleted,
        RealtimeServerEvent::InputAudioTranscriptionDelta(_) => RealtimeServerEventKind::InputAudioTranscriptionDelta,
        RealtimeServerEvent::InputAudioTranscriptionFailed(_) => RealtimeServerEventKind::InputAudioTranscriptionFailed,
        RealtimeServerEvent::ConversationItemRetrieved(_) => RealtimeServerEventKind::ConversationItemRetrieved,
        RealtimeServerEvent::ConversationItemTruncated(_) => RealtimeServerEventKind::ConversationItemTruncated,
        RealtimeServerEvent::Error(_) => RealtimeServerEventKind::Error,
        RealtimeServerEvent::InputAudioBufferCleared(_) => RealtimeServerEventKind::InputAudioBufferCleared,
        RealtimeServerEvent::InputAudioBufferCommitted(_) => RealtimeServerEventKind::InputAudioBufferCommitted,
        RealtimeServerEvent::InputAudioBufferDtmfEventReceived(_) => RealtimeServerEventKind::InputAudioBufferDtmfEventReceived,
        RealtimeServerEvent::InputAudioBufferSpeechStarted(_) => RealtimeServerEventKind::InputAudioBufferSpeechStarted,
        RealtimeServerEvent::InputAudioBufferSpeechStopped(_) => RealtimeServerEventKind::InputAudioBufferSpeechStopped,
        RealtimeServerEvent::RateLimitsUpdated(_) => RealtimeServerEventKind::RateLimitsUpdated,
        RealtimeServerEvent::ResponseAudioDelta(_) => RealtimeServerEventKind::ResponseAudioDelta,
        RealtimeServerEvent::ResponseAudioDone(_) => RealtimeServerEventKind::ResponseAudioDone,
        RealtimeServerEvent::ResponseAudioTranscriptDelta(_) => RealtimeServerEventKind::ResponseAudioTranscriptDelta,
        RealtimeServerEvent::ResponseAudioTranscriptDone(_) => RealtimeServerEventKind::ResponseAudioTranscriptDone,
        RealtimeServerEvent::ResponseContentPartAdded(_) => RealtimeServerEventKind::ResponseContentPartAdded,
        RealtimeServerEvent::ResponseContentPartDone(_) => RealtimeServerEventKind::ResponseContentPartDone,
        RealtimeServerEvent::ResponseCreated(_) => RealtimeServerEventKind::ResponseCreated,
        RealtimeServerEvent::ResponseDone(_) => RealtimeServerEventKind::ResponseDone,
        RealtimeServerEvent::ResponseFunctionCallArgumentsDelta(_) => RealtimeServerEventKind::ResponseFunctionCallArgumentsDelta,
        RealtimeServerEvent::ResponseFunctionCallArgumentsDone(_) => RealtimeServerEventKind::ResponseFunctionCallArgumentsDone,
        RealtimeServerEvent::ResponseOutputItemAdded(_) => RealtimeServerEventKind::ResponseOutputItemAdded,
        RealtimeServerEvent::ResponseOutputItemDone(_) => RealtimeServerEventKind::ResponseOutputItemDone,
        RealtimeServerEvent::ResponseTextDelta(_) => RealtimeServerEventKind::ResponseTextDelta,
        RealtimeServerEvent::ResponseTextDone(_) => RealtimeServerEventKind::ResponseTextDone,
        RealtimeServerEvent::SessionCreated(_) => RealtimeServerEventKind::SessionCreated,
        RealtimeServerEvent::SessionUpdated(_) => RealtimeServerEventKind::SessionUpdated,
        RealtimeServerEvent::OutputAudioBufferStarted(_) => RealtimeServerEventKind::OutputAudioBufferStarted,
        RealtimeServerEvent::OutputAudioBufferStopped(_) => RealtimeServerEventKind::OutputAudioBufferStopped,
        RealtimeServerEvent::OutputAudioBufferCleared(_) => RealtimeServerEventKind::OutputAudioBufferCleared,
        RealtimeServerEvent::ConversationItemAdded(_) => RealtimeServerEventKind::ConversationItemAdded,
        RealtimeServerEvent::ConversationItemDone(_) => RealtimeServerEventKind::ConversationItemDone,
        RealtimeServerEvent::InputAudioBufferTimeoutTriggered(_) => RealtimeServerEventKind::InputAudioBufferTimeoutTriggered,
        RealtimeServerEvent::InputAudioTranscriptionSegment(_) => RealtimeServerEventKind::InputAudioTranscriptionSegment,
        RealtimeServerEvent::McpListToolsInProgress(_) => RealtimeServerEventKind::McpListToolsInProgress,
        RealtimeServerEvent::McpListToolsCompleted(_) => RealtimeServerEventKind::McpListToolsCompleted,
        RealtimeServerEvent::McpListToolsFailed(_) => RealtimeServerEventKind::McpListToolsFailed,
        RealtimeServerEvent::ResponseMcpCallArgumentsDelta(_) => RealtimeServerEventKind::ResponseMcpCallArgumentsDelta,
        RealtimeServerEvent::ResponseMcpCallArgumentsDone(_) => RealtimeServerEventKind::ResponseMcpCallArgumentsDone,
        RealtimeServerEvent::ResponseMcpCallInProgress(_) => RealtimeServerEventKind::ResponseMcpCallInProgress,
        RealtimeServerEvent::ResponseMcpCallCompleted(_) => RealtimeServerEventKind::ResponseMcpCallCompleted,
        RealtimeServerEvent::ResponseMcpCallFailed(_) => RealtimeServerEventKind::ResponseMcpCallFailed,
        RealtimeServerEvent::Unknown(_) => RealtimeServerEventKind::Unknown,
    }
}

/// Routing a server event by the tag it reports gives back its own kind.
pub proof fn law_server_event_tag_round_trip(e: RealtimeServerEvent)
    requires
        !(e is Unknown),
    ensures
        RealtimeServerEventKind::of_tag(realtime_server_event_type_of(e)) == realtime_server_event_kind_of(e),
{
    reveal_strlit("conversation.created");
    reveal_strlit("conversation.item.created");
    reveal_strlit("conversation.item.deleted");
    reveal_strlit("conversation.item.input_audio_transcription.completed");
    reveal_strlit("conversation.item.input_audio_transcription.delta");
    reveal_strlit("conversation.item.input_audio_transcription.failed");
    reveal_strlit("conversation.item.retrieved");
    reveal_strlit("conversation.item.truncated");
    reveal_strlit("error");
    reveal_strlit("input_audio_buffer.cleared");
    reveal_strlit("input_audio_buffer.committed");
    reveal_strlit("input_audio_buffer.dtmf_event_received");
    reveal_strlit("input_audio_buffer.speech_started");
    reveal_strlit("input_audio_buffer.speech_stopped");
    reveal_strlit("rate_limits.updated");
    reveal_strlit("response.output_audio.delta");
    reveal_strlit("response.output_audio.done");
    reveal_strlit("response.output_audio_transcript.delta");
    reveal_strlit("response.output_audio_transcript.done");
    reveal_strlit("response.content_part.added");
    reveal_strlit("response.content_part.done");
    reveal_strlit("response.created");
    reveal_strlit("response.done");
    reveal_strlit("response.function_call_arguments.delta");
    reveal_strlit("response.function_call_arguments.done");
    reveal_strlit("response.output_item.added");
    reveal_strlit("response.output_item.done");
    reveal_strlit("response.output_text.delta");
    reveal_strlit("response.output_text.done");
    reveal_strlit("session.created");
    reveal_strlit("session.updated");
    reveal_strlit("output_audio_buffer.started");
    reveal_strlit("output_audio_buffer.stopped");
    reveal_strlit("output_audio_buffer.cleared");
    reveal_strlit("conversation.item.added");
    reveal_strlit("conversation.item.done");
    reveal_strlit("input_audio_buffer.timeout_triggered");
    reveal_strlit("conversation.item.input_audio_transcription.segment");
    reveal_strlit("mcp_list_tools.in_progress");
    reveal_strlit("mcp_list_tools.completed");
    reveal_strlit("mcp_list_tools.failed");
    reveal_strlit("response.mcp_call_arguments.delta");
    reveal_strlit("response.mcp_call_arguments.done");
    reveal_strlit("response.mcp_call.in_progress");
    reveal_strlit("response.mcp_call.completed");
    reveal_strlit("response.mcp_call.failed");
    assert("conversation.created"@.len() == 20);
    assert("conversation.item.created"@.len() == 25);
    assert("conversation.item.deleted"@.len() == 25);
    assert("conversation.item.input_audio_transcription.completed"@.len() == 53);
    assert("conversation.item.input_audio_transcription.delta"@.len() == 49);
    assert("conversation.item.input_audio_transcription.failed"@.len() == 50);
    assert("conversation.item.retrieved"@.len() == 27);
    assert("conversation.item.truncated"@.len() == 27);
    assert("error"@.len() == 5);
    assert("input_audio_buffer.cleared"@.len() == 26);
    assert("input_audio_buffer.committed"@.len() == 28);
    assert("input_audio_buffer.dtmf_event_received"@.len() == 38);
    assert("input_audio_buffer.speech_started"@.len() == 33);
    assert("input_audio_buffer.speech_stopped"@.len() == 33);
    assert("rate_limits.updated"@.len() == 19);
    assert("response.output_audio.delta"@.len() == 27);
    assert("response.output_audio.done"@.len() == 26);
    assert("response.output_audio_transcript.delta"@.len() == 38);
    assert("response.output_audio_transcript.done"@.len() == 37);
    assert("response.content_part.added"@.len() == 27);
    assert("response.content_part.done"@.len() == 26);
    assert("response.created"@.len() == 16);
    assert("response.done"@.len() == 13);
    assert("response.function_call_arguments.delta"@.len() == 38);
    assert("response.function_call_arguments.done"@.len() == 37);
    assert("response.output_item.added"@.len() == 26);
    assert("response.output_item.done"@.len() == 25);
    assert("response.output_text.delta"@.len() == 26);
    assert("response.output_text.done"@.len() == 25);
    assert("session.created"@.len() == 15);
    assert("session.updated"@.len() == 15);
    assert("output_audio_buffer.started"@.len() == 27);
    assert("output_audio_buffer.stopped"@.len() == 27);
    assert("output_audio_buffer.cleared"@.len() == 27);
    assert("conversation.item.added"@.len() == 23);
    assert("conversation.item.done"@.len() == 22);
    assert("input_audio_buffer.timeout_triggered"@.len() == 36);
    assert("conversation.item.input_audio_transcription.segment"@.len() == 51);
    assert("mcp_list_tools.in_progress"@.len() == 26);
    assert("mcp_list_tools.completed"@.len() == 24);
    assert("mcp_list_tools.failed"@.len() == 21);
    assert("response.mcp_call_arguments.delta"@.len() == 33);
    assert("response.mcp_call_arguments.done"@.len() == 32);
    assert("response.mcp_call.in_progress"@.len() == 29);
    assert("response.mcp_call.completed"@.len() == 27);
    assert("response.mcp_call.failed"@.len() == 24);
    match e {
        RealtimeServerEvent::ConversationCreated(_) => {},
        RealtimeServerEvent::ConversationItemCreated(_) => {},
        RealtimeServerEvent::ConversationItemDeleted(_) => {
            assert("conversation.item.deleted"@[18] != "conversation.item.created"@[18]);
        },
        RealtimeServerEvent::InputAudioTranscriptionCompleted(_) => {},
        RealtimeServerEvent::InputAudioTranscriptionDelta(_) => {},
        RealtimeServerEvent::InputAudioTranscriptionFailed(_) => {},
        RealtimeServerEvent::ConversationItemRetrieved(_) => {},
        RealtimeServerEvent::ConversationItemTruncated(_) => {
            assert("conversation.item.truncated"@[18] != "conversation.item.retrieved"@[18]);
        },
        RealtimeServerEvent::Error(_) => {},
        RealtimeServerEvent::InputAudioBufferCleared(_) => {},
        RealtimeServerEvent::InputAudioBufferCommitted(_) => {},
        RealtimeServerEvent::InputAudioBufferDtmfEventReceived(_) => {},
        RealtimeServerEvent::InputAudioBufferSpeechStarted(_) => {},
        RealtimeServerEvent::InputAudioBufferSpeechStopped(_) => {
            assert("input_audio_buffer.speech_stopped"@[28] != "input_audio_buffer.speech_started"@[28]);
        },
        RealtimeServerEvent::RateLimitsUpdated(_) => {},
        RealtimeServerEvent::ResponseAudioDelta(_) => {
            assert("response.output_audio.delta"@[0] != "conversation.item.retrieved"@[0]);
            assert("response.output_audio.delta"@[0] != "conversation.item.truncated"@[0]);
        },
        RealtimeServerEvent::ResponseAudioDone(_) => {
            assert("response.output_audio.done"@[0] != "input_audio_buffer.cleared"@[0]);
        },
        RealtimeServerEvent::ResponseAudioTranscriptDelta(_) => {
            assert("response.output_audio_transcript.delta"@[0] != "input_audio_buffer.dtmf_event_received"@[0]);
        },
        RealtimeServerEvent::ResponseAudioTranscriptDone(_) => {},
        RealtimeServerEvent::ResponseContentPartAdded(_) => {
            assert("response.content_part.added"@[0] != "conversation.item.retrieved"@[0]);
            assert("response.content_part.added"@[0] != "conversation.item.truncated"@[0]);
            assert("response.content_part.added"@[9] != "response.output_audio.delta"@[9]);
        },
        RealtimeServerEvent::ResponseContentPartDone(_) => {
            assert("response.content_part.done"@[0] != "input_audio_buffer.cleared"@[0]);
            assert("response.content_part.done"@[9] != "response.output_audio.done"@[9]);
        },
        RealtimeServerEvent::ResponseCreated(_) => {},
        RealtimeServerEvent::ResponseDone(_) => {},
        RealtimeServerEvent::ResponseFunctionCallArgumentsDelta(_) => {
            assert("response.function_call_arguments.delta"@[0] != "input_audio_buffer.dtmf_event_received"@[0]);
            assert("response.function_call_arguments.delta"@[9] != "response.output_audio_transcript.delta"@[9]);
        },
        RealtimeServerEvent::ResponseFunctionCallArgumentsDone(_) => {
            assert("response.function_call_arguments.done"@[9] != "response.output_audio_transcript.done"@[9]);
        },
        RealtimeServerEvent::ResponseOutputItemAdded(_) => {
            assert("response.output_item.added"@[0] != "input_audio_buffer.cleared"@[0]);
            assert("response.output_item.added"@[16] != "response.output_audio.done"@[16]);
            assert("response.output_item.added"@[9] != "response.content_part.done"@[9]);
        },
        RealtimeServerEvent::ResponseOutputItemDone(_) => {
            assert("response.output_item.done"@[0] != "conversation.item.created"@[0]);
            assert("response.output_item.done"@[0] != "conversation.item.deleted"@[0]);
        },
        RealtimeServerEvent::ResponseTextDelta(_) => {
            assert("response.output_text.delta"@[0] != "input_audio_buffer.cleared"@[0]);
            assert("response.output_text.delta"@[16] != "response.output_audio.done"@[16]);
            assert("response.output_text.delta"@[9] != "response.content_part.done"@[9]);
            assert("response.output_text.delta"@[16] != "response.output_item.added"@[16]);
        },
        RealtimeServerEvent::ResponseTextDone(_) => {
            assert("response.output_text.done"@[0] != "conversation.item.created"@[0]);
            assert("response.output_text.done"@[0] != "conversation.item.deleted"@[0]);
            assert("response.output_text.done"@[16] != "response.output_item.done"@[16]);
        },
        RealtimeServerEvent::SessionCreated(_) => {},
        RealtimeServerEvent::SessionUpdated(_) => {
            assert("session.updated"@[8] != "session.created"@[8]);
        },
        RealtimeServerEvent::OutputAudioBufferStarted(_) => {
            assert("output_audio_buffer.started"@[0] != "conversation.item.retrieved"@[0]);
            assert("output_audio_buffer.started"@[0] != "conversation.item.truncated"@[0]);
            assert("output_audio_buffer.started"@[0] != "response.output_audio.delta"@[0]);
            assert("output_audio_buffer.started"@[0] != "response.content_part.added"@[0]);
        },
        RealtimeServerEvent::OutputAudioBufferStopped(_) => {
            assert("output_audio_buffer.stopped"@[0] != "conversation.item.retrieved"@[0]);
            assert("output_audio_buffer.stopped"@[0] != "conversation.item.truncated"@[0]);
            assert("output_audio_buffer.stopped"@[0] != "response.output_audio.delta"@[0]);
            assert("output_audio_buffer.stopped"@[0] != "response.content_part.added"@[0]);
            assert("output_audio_buffer.stopped"@[22] != "output_audio_buffer.started"@[22]);
        },
        RealtimeServerEvent::OutputAudioBufferCleared(_) => {
            assert("output_audio_buffer.cleared"@[0] != "conversation.item.retrieved"@[0]);
            assert("output_audio_buffer.cleared"@[0] != "conversation.item.truncated"@[0]);
            assert("output_audio_buffer.cleared"@[0] != "response.output_audio.delta"@[0]);
            assert("output_audio_buffer.cleared"@[0] != "response.content_part.added"@[0]);
            assert("output_audio_buffer.cleared"@[20] != "output_audio_buffer.started"@[20]);
            assert("output_audio_buffer.cleared"@[20] != "output_audio_buffer.stopped"@[20]);
        },
        RealtimeServerEvent::ConversationItemAdded(_) => {},
        RealtimeServerEvent::ConversationItemDone(_) => {},
        RealtimeServerEvent::InputAudioBufferTimeoutTriggered(_) => {},
        RealtimeServerEvent::InputAudioTranscriptionSegment(_) => {},
        RealtimeServerEvent::McpListToolsInProgress(_) => {
            assert("mcp_list_tools.in_progress"@[0] != "input_audio_buffer.cleared"@[0]);
            assert("mcp_list_tools.in_progress"@[0] != "response.output_audio.done"@[0]);
            assert("mcp_list_tools.in_progress"@[0] != "response.content_part.done"@[0]);
            assert("mcp_list_tools.in_progress"@[0] != "response.output_item.added"@[0]);
            assert("mcp_list_tools.in_progress"@[0] != "response.output_text.delta"@[0]);
        },
        RealtimeServerEvent::McpListToolsCompleted(_) => {},
        RealtimeServerEvent::McpListToolsFailed(_) => {},
        RealtimeServerEvent::ResponseMcpCallArgumentsDelta(_) => {
            assert("response.mcp_call_arguments.delta"@[0] != "input_audio_buffer.speech_started"@[0]);
            assert("response.mcp_call_arguments.delta"@[0] != "input_audio_buffer.speech_stopped"@[0]);
        },
        RealtimeServerEvent::ResponseMcpCallArgumentsDone(_) => {},
        RealtimeServerEvent::ResponseMcpCallInProgress(_) => {},
        RealtimeServerEvent::ResponseMcpCallCompleted(_) => {
            assert("response.mcp_call.completed"@[0] != "conversation.item.retrieved"@[0]);
            assert("response.mcp_call.completed"@[0] != "conversation.item.truncated"@[0]);
            assert("response.mcp_call.completed"@[9] != "response.output_audio.delta"@[9]);
            assert("response.mcp_call.completed"@[9] != "response.content_part.added"@[9]);
            assert("response.mcp_call.completed"@[0] != "output_audio_buffer.started"@[0]);
            assert("response.mcp_call.completed"@[0] != "output_audio_buffer.stopped"@[0]);
            assert("response.mcp_call.completed"@[0] != "output_audio_buffer.cleared"@[0]);
        },
        RealtimeServerEvent::ResponseMcpCallFailed(_) => {
            assert("response.mcp_call.failed"@[0] != "mcp_list_tools.completed"@[0]);
        },
        RealtimeServerEvent::Unknown(_) => {},
    }
}

/// Each `type` tag of the Realtime server-event schema selects the variant
/// that the schema pairs with it; any other tag selects none, and the event
/// is kept whole.
pub proof fn law_server_event_tags_select_schema_variants(tag: Seq<char>)
    ensures
        tag == "conversation.created"@ ==> RealtimeServerEventKind::of_tag(tag) == RealtimeServerEventKind::ConversationCreated,
        tag == "conversation.item.created"@ ==> RealtimeServerEventKind::of_tag(tag) == RealtimeServerEventKind::ConversationItemCreated,
        tag == "conversation.item.deleted"@ ==> RealtimeServerEventKind::of_tag(tag) == RealtimeServerEventKind::ConversationItemDeleted,
        tag == "conversation.item.input_audio_transcription.completed"@ ==> RealtimeServerEventKind::of_tag(tag) == RealtimeServerEventKind::InputAudioTranscriptionCompleted,
        tag == "conversation.item.input_audio_transcription.delta"@ ==> RealtimeServerEventKind::of_tag(tag) == RealtimeServerEventKind::InputAudioTranscriptionDelta,
        tag == "conversation.item.input_audio_transcription.failed"@ ==> RealtimeServerEventKind::of_tag(tag) == RealtimeServerEventKind::InputAudioTranscriptionFailed,
        tag == "conversation.item.retrieved"@ ==> RealtimeServerEventKind::of_tag(tag) == RealtimeServerEventKind::ConversationItemRetrieved,
        tag == "conversation.item.truncated"@ ==> RealtimeServerEventKind::of_tag(tag) == RealtimeServerEventKind::ConversationItemTruncated,
        tag == "error"@ ==> RealtimeServerEventKind::of_tag(tag) == RealtimeServerEventKind::Error,
        tag == "input_audio_buffer.cleared"@ ==> RealtimeServerEventKind::of_tag(tag) == RealtimeServerEventKind::InputAudioBufferCleared,
        tag == "input_audio_buffer.committed"@ ==> RealtimeServerEventKind::of_tag(tag) == RealtimeServerEventKind::InputAudioBufferCommitted,
        tag == "input_audio_buffer.dtmf_event_received"@ ==> RealtimeServerEventKind::of_tag(tag) == RealtimeServerEventKind::InputAudioBufferDtmfEventReceived,
        tag == "input_audio_buffer.speech_started"@ ==> RealtimeServerEventKind::of_tag(tag) == RealtimeServerEventKind::InputAudioBufferSpeechStarted,
        tag == "input_audio_buffer.speech_stopped"@ ==> RealtimeServerEventKind::of_tag(tag) == RealtimeServerEventKind::InputAudioBufferSpeechStopped,
        tag == "rate_limits.updated"@ ==> RealtimeServerEventKind::of_tag(tag) == RealtimeServerEventKind::RateLimitsUpdated,
        tag == "response.output_audio.delta"@ ==> RealtimeServerEventKind::of_tag(tag) == RealtimeServerEventKind::ResponseAudioDelta,
        tag == "response.output_audio.done"@ ==> RealtimeServerEventKind::of_tag(tag) == RealtimeServerEventKind::ResponseAudioDone,
        tag == "response.output_audio_transcript.delta"@ ==> RealtimeServerEventKind::of_tag(tag) == RealtimeServerEventKind::ResponseAudioTranscriptDelta,
        tag == "response.output_audio_transcript.done"@ ==> RealtimeServerEventKind::of_tag(tag) == RealtimeServerEventKind::ResponseAudioTranscriptDone,
        tag == "response.content_part.added"@ ==> RealtimeServerEventKind::of_tag(tag) == RealtimeServerEventKind::ResponseContentPartAdded,
        tag == "response.content_part.done"@ ==> RealtimeServerEventKind::of_tag(tag) == RealtimeServerEventKind::ResponseContentPartDone,
        tag == "response.created"@ ==> RealtimeServerEventKind::of_tag(tag) == RealtimeServerEventKind::ResponseCreated,
        tag == "response.done"@ ==> RealtimeServerEventKind::of_tag(tag) == RealtimeServerEventKind::ResponseDone,
        tag == "response.function_call_arguments.delta"@ ==> RealtimeServerEventKind::of_tag(tag) == RealtimeServerEventKind::ResponseFunctionCallArgumentsDelta,
        tag == "response.function_call_arguments.done"@ ==> RealtimeServerEventKind::of_tag(tag) == RealtimeServerEventKind::ResponseFunctionCallArgumentsDone,
        tag == "response.output_item.added"@ ==> RealtimeServerEventKind::of_tag(tag) == RealtimeServerEventKind::ResponseOutputItemAdded,
        tag == "response.output_item.done"@ ==> RealtimeServerEventKind::of_tag(tag) == RealtimeServerEventKind::ResponseOutputItemDone,
        tag == "response.output_text.delta"@ ==> RealtimeServerEventKind::of_tag(tag) == RealtimeServerEventKind::ResponseTextDelta,
        tag == "response.output_text.done"@ ==> RealtimeServerEventKind::of_tag(tag) == RealtimeServerEventKind::ResponseTextDone,
        tag == "session.created"@ ==> RealtimeServerEventKind::of_tag(tag) == RealtimeServerEventKind::SessionCreated,
        tag == "session.updated"@ ==> RealtimeServerEventKind::of_tag(tag) == RealtimeServerEventKind::SessionUpdated,
        tag == "output_audio_buffer.started"@ ==> RealtimeServerEventKind::of_tag(tag) == RealtimeServerEventKind::OutputAudioBufferStarted,
        tag == "output_audio_buffer.stopped"@ ==> RealtimeServerEventKind::of_tag(tag) == RealtimeServerEventKind::OutputAudioBufferStopped,
        tag == "output_audio_buffer.cleared"@ ==> RealtimeServerEventKind::of_tag(tag) == RealtimeServerEventKind::OutputAudioBufferCleared,
        tag == "conversation.item.added"@ ==> RealtimeServerEventKind::of_tag(tag) == RealtimeServerEventKind::ConversationItemAdded,
        tag == "conversation.item.done"@ ==> RealtimeServerEventKind::of_tag(tag) == RealtimeServerEventKind::ConversationItemDone,
        tag == "input_audio_buffer.timeout_triggered"@ ==> RealtimeServerEventKind::of_tag(tag) == RealtimeServerEventKind::InputAudioBufferTimeoutTriggered,
        tag == "conversation.item.input_audio_transcription.segment"@ ==> RealtimeServerEventKind::of_tag(tag) == RealtimeServerEventKind::InputAudioTranscriptionSegment,
        tag == "mcp_list_tools.in_progress"@ ==> RealtimeServerEventKind::of_tag(tag) == RealtimeServerEventKind::McpListToolsInProgress,
        tag == "mcp_list_tools.completed"@ ==> RealtimeServerEventKind::of_tag(tag) == RealtimeServerEventKind::McpListToolsCompleted,
        tag == "mcp_list_tools.failed"@ ==> RealtimeServerEventKind::of_tag(tag) == RealtimeServerEventKind::McpListToolsFailed,
        tag == "response.mcp_call_arguments.delta"@ ==> RealtimeServerEventKind::of_tag(tag) == RealtimeServerEventKind::ResponseMcpCallArgumentsDelta,
        tag == "response.mcp_call_arguments.done"@ ==> RealtimeServerEventKind::of_tag(tag) == RealtimeServerEventKind::ResponseMcpCallArgumentsDone,
        tag == "response.mcp_call.in_progress"@ ==> RealtimeServerEventKind::of_tag(tag) == RealtimeServerEventKind::ResponseMcpCallInProgress,
        tag == "response.mcp_call.completed"@ ==> RealtimeServerEventKind::of_tag(tag) == RealtimeServerEventKind::ResponseMcpCallCompleted,
        tag == "response.mcp_call.failed"@ ==> RealtimeServerEventKind::of_tag(tag) == RealtimeServerEventKind::ResponseMcpCallFailed,
        !(tag == "conversation.created"@ || tag == "conversation.item.created"@ || tag == "conversation.item.deleted"@ || tag == "conversation.item.input_audio_transcription.completed"@ || tag == "conversation.item.input_audio_transcription.delta"@ || tag == "conversation.item.input_audio_transcription.failed"@ || tag == "conversation.item.retrieved"@ || tag == "conversation.item.truncated"@ || tag == "error"@ || tag == "input_audio_buffer.cleared"@ || tag == "input_audio_buffer.committed"@ || tag == "input_audio_buffer.dtmf_event_received"@ || tag == "input_audio_buffer.speech_started"@ || tag == "input_audio_buffer.speech_stopped"@ || tag == "rate_limits.updated"@ || tag == "response.output_audio.delta"@ || tag == "response.output_audio.done"@ || tag == "response.output_audio_transcript.delta"@ || tag == "response.output_audio_transcript.done"@ || tag == "response.content_part.added"@ || tag == "response.content_part.done"@ || tag == "response.created"@ || tag == "response.done"@ || tag == "response.function_call_arguments.delta"@ || tag == "response.function_call_arguments.done"@ || tag == "response.output_item.added"@ || tag == "response.output_item.done"@ || tag == "response.output_text.delta"@ || tag == "response.output_text.done"@ || tag == "session.created"@ || tag == "session.updated"@ || tag == "output_audio_buffer.started"@ || tag == "output_audio_buffer.stopped"@ || tag == "output_audio_buffer.cleared"@ || tag == "conversation.item.added"@ || tag == "conversation.item.done"@ || tag == "input_audio_buffer.timeout_triggered"@ || tag == "conversation.item.input_audio_transcription.segment"@ || tag == "mcp_list_tools.in_progress"@ || tag == "mcp_list_tools.completed"@ || tag == "mcp_list_tools.failed"@ || tag == "response.mcp_call_arguments.delta"@ || tag == "response.mcp_call_arguments.done"@ || tag == "response.mcp_call.in_progress"@ || tag == "response.mcp_call.completed"@ || tag == "response.mcp_call.failed"@) ==> RealtimeServerEventKind::of_tag(tag) == RealtimeServerEventKind::Unknown,
{
    reveal_strlit("conversation.created");
    reveal_strlit("conversation.item.created");
    reveal_strlit("conversation.item.deleted");
    reveal_strlit("conversation.item.input_audio_transcription.completed");
    reveal_strlit("conversation.item.input_audio_transcription.delta");
    reveal_strlit("conversation.item.input_audio_transcription.failed");
    reveal_strlit("conversation.item.retrieved");
    reveal_strlit("conversation.item.truncated");
    reveal_strlit("error");
    reveal_strlit("input_audio_buffer.cleared");
    reveal_strlit("input_audio_buffer.committed");
    reveal_strlit("input_audio_buffer.dtmf_event_received");
    reveal_strlit("input_audio_buffer.speech_started");
    reveal_strlit("input_audio_buffer.speech_stopped");
    reveal_strlit("rate_limits.updated");
    reveal_strlit("response.output_audio.delta");
    reveal_strlit("response.output_audio.done");
    reveal_strlit("response.output_audio_transcript.delta");
    reveal_strlit("response.output_audio_transcript.done");
    reveal_strlit("response.content_part.added");
    reveal_strlit("response.content_part.done");
    reveal_strlit("response.created");
    reveal_strlit("response.done");
    reveal_strlit("response.function_call_arguments.delta");
    reveal_strlit("response.function_call_arguments.done");
    reveal_strlit("response.output_item.added");
    reveal_strlit("response.output_item.done");
    reveal_strlit("response.output_text.delta");
    reveal_strlit("response.output_text.done");
    reveal_strlit("session.created");
    reveal_strlit("session.updated");
    reveal_strlit("output_audio_buffer.started");
    reveal_strlit("output_audio_buffer.stopped");
    reveal_strlit("output_audio_buffer.cleared");
    reveal_strlit("conversation.item.added");
    reveal_strlit("conversation.item.done");
    reveal_strlit("input_audio_buffer.timeout_triggered");
    reveal_strlit("conversation.item.input_audio_transcription.segment");
    reveal_strlit("mcp_list_tools.in_progress");
    reveal_strlit("mcp_list_tools.completed");
    reveal_strlit("mcp_list_tools.failed");
    reveal_strlit("response.mcp_call_arguments.delta");
    reveal_strlit("response.mcp_call_arguments.done");
    reveal_strlit("response.mcp_call.in_progress");
    reveal_strlit("response.mcp_call.completed");
    reveal_strlit("response.mcp_call.failed");
    assert("conversation.created"@.len() == 20);
    assert("conversation.item.created"@.len() == 25);
    assert("conversation.item.deleted"@.len() == 25);
    assert("conversation.item.input_audio_transcription.completed"@.len() == 53);
    assert("conversation.item.input_audio_transcription.delta"@.len() == 49);
    assert("conversation.item.input_audio_transcription.failed"@.len() == 50);
    assert("conversation.item.retrieved"@.len() == 27);
    assert("conversation.item.truncated"@.len() == 27);
    assert("error"@.len() == 5);
    assert("input_audio_buffer.cleared"@.len() == 26);
    assert("input_audio_buffer.committed"@.len() == 28);
    assert("input_audio_buffer.dtmf_event_received"@.len() == 38);
    assert("input_audio_buffer.speech_started"@.len() == 33);
    assert("input_audio_buffer.speech_stopped"@.len() == 33);
    assert("rate_limits.updated"@.len() == 19);
    assert("response.output_audio.delta"@.len() == 27);
    assert("response.output_audio.done"@.len() == 26);
    assert("response.output_audio_transcript.delta"@.len() == 38);
    assert("response.output_audio_transcript.done"@.len() == 37);
    assert("response.content_part.added"@.len() == 27);
    assert("response.content_part.done"@.len() == 26);
    assert("response.created"@.len() == 16);
    assert("response.done"@.len() == 13);
    assert("response.function_call_arguments.delta"@.len() == 38);
    assert("response.function_call_arguments.done"@.len() == 37);
    assert("response.output_item.added"@.len() == 26);
    assert("response.output_item.done"@.len() == 25);
    assert("response.output_text.delta"@.len() == 26);
    assert("response.output_text.done"@.len() == 25);
    assert("session.created"@.len() == 15);
    assert("session.updated"@.len() == 15);
    assert("output_audio_buffer.started"@.len() == 27);
    assert("output_audio_buffer.stopped"@.len() == 27);
    assert("output_audio_buffer.cleared"@.len() == 27);
    assert("conversation.item.added"@.len() == 23);
    assert("conversation.item.done"@.len() == 22);
    assert("input_audio_buffer.timeout_triggered"@.len() == 36);
    assert("conversation.item.input_audio_transcription.segment"@.len() == 51);
    assert("mcp_list_tools.in_progress"@.len() == 26);
    assert("mcp_list_tools.completed"@.len() == 24);
    assert("mcp_list_tools.failed"@.len() == 21);
    assert("response.mcp_call_arguments.delta"@.len() == 33);
    assert("response.mcp_call_arguments.done"@.len() == 32);
    assert("response.mcp_call.in_progress"@.len() == 29);
    assert("response.mcp_call.completed"@.len() == 27);
    assert("response.mcp_call.failed"@.len() == 24);
    assert("conversation.item.created"@[18] != "conversation.item.deleted"@[18]);
    assert("conversation.item.created"@[0] != "response.output_item.done"@[0]);
    assert("conversation.item.created"@[0] != "response.output_text.done"@[0]);
    assert("conversation.item.deleted"@[0] != "response.output_item.done"@[0]);
    assert("conversation.item.deleted"@[0] != "response.output_text.done"@[0]);
    assert("conversation.item.retrieved"@[18] != "conversation.item.truncated"@[18]);
    assert("conversation.item.retrieved"@[0] != "response.output_audio.delta"@[0]);
    assert("conversation.item.retrieved"@[0] != "response.content_part.added"@[0]);
    assert("conversation.item.retrieved"@[0] != "output_audio_buffer.started"@[0]);
    assert("conversation.item.retrieved"@[0] != "output_audio_buffer.stopped"@[0]);
    assert("conversation.item.retrieved"@[0] != "output_audio_buffer.cleared"@[0]);
    assert("conversation.item.retrieved"@[0] != "response.mcp_call.completed"@[0]);
    assert("conversation.item.truncated"@[0] != "response.output_audio.delta"@[0]);
    assert("conversation.item.truncated"@[0] != "response.content_part.added"@[0]);
    assert("conversation.item.truncated"@[0] != "output_audio_buffer.started"@[0]);
    assert("conversation.item.truncated"@[0] != "output_audio_buffer.stopped"@[0]);
    assert("conversation.item.truncated"@[0] != "output_audio_buffer.cleared"@[0]);
    assert("conversation.item.truncated"@[0] != "response.mcp_call.completed"@[0]);
    assert("input_audio_buffer.cleared"@[0] != "response.output_audio.done"@[0]);
    assert("input_audio_buffer.cleared"@[0] != "response.content_part.done"@[0]);
    assert("input_audio_buffer.cleared"@[0] != "response.output_item.added"@[0]);
    assert("input_audio_buffer.cleared"@[0] != "response.output_text.delta"@[0]);
    assert("input_audio_buffer.cleared"@[0] != "mcp_list_tools.in_progress"@[0]);
    assert("input_audio_buffer.dtmf_event_received"@[0] != "response.output_audio_transcript.delta"@[0]);
    assert("input_audio_buffer.dtmf_event_received"@[0] != "response.function_call_arguments.delta"@[0]);
    assert("input_audio_buffer.speech_started"@[28] != "input_audio_buffer.speech_stopped"@[28]);
    assert("input_audio_buffer.speech_started"@[0] != "response.mcp_call_arguments.delta"@[0]);
    assert("input_audio_buffer.speech_stopped"@[0] != "response.mcp_call_arguments.delta"@[0]);
    assert("response.output_audio.delta"@[9] != "response.content_part.added"@[9]);
    assert("response.output_audio.delta"@[0] != "output_audio_buffer.started"@[0]);
    assert("response.output_audio.delta"@[0] != "output_audio_buffer.stopped"@[0]);
    assert("response.output_audio.delta"@[0] != "output_audio_buffer.cleared"@[0]);
    assert("response.output_audio.delta"@[9] != "response.mcp_call.completed"@[9]);
    assert("response.output_audio.done"@[9] != "response.content_part.done"@[9]);
    assert("response.output_audio.done"@[16] != "response.output_item.added"@[16]);
    assert("response.output_audio.done"@[16] != "response.output_text.delta"@[16]);
    assert("response.output_audio.done"@[0] != "mcp_list_tools.in_progress"@[0]);
    assert("response.output_audio_transcript.delta"@[9] != "response.function_call_arguments.delta"@[9]);
    assert("response.output_audio_transcript.done"@[9] != "response.function_call_arguments.done"@[9]);
    assert("response.content_part.added"@[0] != "output_audio_buffer.started"@[0]);
    assert("response.content_part.added"@[0] != "output_audio_buffer.stopped"@[0]);
    assert("response.content_part.added"@[0] != "output_audio_buffer.cleared"@[0]);
    assert("response.content_part.added"@[9] != "response.mcp_call.completed"@[9]);
    assert("response.content_part.done"@[9] != "response.output_item.added"@[9]);
    assert("response.content_part.done"@[9] != "response.output_text.delta"@[9]);
    assert("response.content_part.done"@[0] != "mcp_list_tools.in_progress"@[0]);
    assert("response.output_item.added"@[16] != "response.output_text.delta"@[16]);
    assert("response.output_item.added"@[0] != "mcp_list_tools.in_progress"@[0]);
    assert("response.output_item.done"@[16] != "response.output_text.done"@[16]);
    assert("response.output_text.delta"@[0] != "mcp_list_tools.in_progress"@[0]);
    assert("session.created"@[8] != "session.updated"@[8]);
    assert("output_audio_buffer.started"@[22] != "output_audio_buffer.stopped"@[22]);
    assert("output_audio_buffer.started"@[20] != "output_audio_buffer.cleared"@[20]);
    assert("output_audio_buffer.started"@[0] != "response.mcp_call.completed"@[0]);
    assert("output_audio_buffer.stopped"@[20] != "output_audio_buffer.cleared"@[20]);
    assert("output_audio_buffer.stopped"@[0] != "response.mcp_call.completed"@[0]);
    assert("output_audio_buffer.cleared"@[0] != "response.mcp_call.completed"@[0]);
    assert("mcp_list_tools.completed"@[0] != "response.mcp_call.failed"@[0]);
}

/// Each server event reports the `type` tag that the schema pairs with its
/// variant.
pub proof fn law_server_events_report_schema_tags(e: RealtimeServerEvent)
    ensures
        e is ConversationCreated ==> realtime_server_event_type_of(e) == "conversation.created"@,
        e is ConversationItemCreated ==> realtime_server_event_type_of(e) == "conversation.item.created"@,
        e is ConversationItemDeleted ==> realtime_server_event_type_of(e) == "conversation.item.deleted"@,
        e is InputAudioTranscriptionCompleted ==> realtime_server_event_type_of(e) == "conversation.item.input_audio_transcription.completed"@,
        e is InputAudioTranscriptionDelta ==> realtime_server_event_type_of(e) == "conversation.item.input_audio_transcription.delta"@,
        e is InputAudioTranscriptionFailed ==> realtime_server_event_type_of(e) == "conversation.item.input_audio_transcription.failed"@,
        e is ConversationItemRetrieved ==> realtime_server_event_type_of(e) == "conversation.item.retrieved"@,
        e is ConversationItemTruncated ==> realtime_server_event_type_of(e) == "conversation.item.truncated"@,
        e is Error ==> realtime_server_event_type_of(e) == "error"@,
        e is InputAudioBufferCleared ==> realtime_server_event_type_of(e) == "input_audio_buffer.cleared"@,
        e is InputAudioBufferCommitted ==> realtime_server_event_type_of(e) == "input_audio_buffer.committed"@,
        e is InputAudioBufferDtmfEventReceived ==> realtime_server_event_type_of(e) == "input_audio_buffer.dtmf_event_received"@,
        e is InputAudioBufferSpeechStarted ==> realtime_server_event_type_of(e) == "input_audio_buffer.speech_started"@,
        e is InputAudioBufferSpeechStopped ==> realtime_server_event_type_of(e) == "input_audio_buffer.speech_stopped"@,
        e is RateLimitsUpdated ==> realtime_server_event_type_of(e) == "rate_limits.updated"@,
        e is ResponseAudioDelta ==> realtime_server_event_type_of(e) == "response.output_audio.delta"@,
        e is ResponseAudioDone ==> realtime_server_event_type_of(e) == "response.output_audio.done"@,
        e is ResponseAudioTranscriptDelta ==> realtime_server_event_type_of(e) == "response.output_audio_transcript.delta"@,
        e is ResponseAudioTranscriptDone ==> realtime_server_event_type_of(e) == "response.output_audio_transcript.done"@,
        e is ResponseContentPartAdded ==> realtime_server_event_type_of(e) == "response.content_part.added"@,
        e is ResponseContentPartDone ==> realtime_server_event_type_of(e) == "response.content_part.done"@,
        e is ResponseCreated ==> realtime_server_event_type_of(e) == "response.created"@,
        e is ResponseDone ==> realtime_server_event_type_of(e) == "response.done"@,
        e is ResponseFunctionCallArgumentsDelta ==> realtime_server_event_type_of(e) == "response.function_call_arguments.delta"@,
        e is ResponseFunctionCallArgumentsDone ==> realtime_server_event_type_of(e) == "response.function_call_arguments.done"@,
        e is ResponseOutputItemAdded ==> realtime_server_event_type_of(e) == "response.output_item.added"@,
        e is ResponseOutputItemDone ==> realtime_server_event_type_of(e) == "response.output_item.done"@,
        e is ResponseTextDelta ==> realtime_server_event_type_of(e) == "response.output_text.delta"@,
        e is ResponseTextDone ==> realtime_server_event_type_of(e) == "response.output_text.done"@,
        e is SessionCreated ==> realtime_server_event_type_of(e) == "session.created"@,
        e is SessionUpdated ==> realtime_server_event_type_of(e) == "session.updated"@,
        e is OutputAudioBufferStarted ==> realtime_server_event_type_of(e) == "output_audio_buffer.started"@,
        e is OutputAudioBufferStopped ==> realtime_server_event_type_of(e) == "output_audio_buffer.stopped"@,
        e is OutputAudioBufferCleared ==> realtime_server_event_type_of(e) == "output_audio_buffer.cleared"@,
        e is ConversationItemAdded ==> realtime_server_event_type_of(e) == "conversation.item.added"@,
        e is ConversationItemDone ==> realtime_server_event_type_of(e) == "conversation.item.done"@,
        e is InputAudioBufferTimeoutTriggered ==> realtime_server_event_type_of(e) == "input_audio_buffer.timeout_triggered"@,
        e is InputAudioTranscriptionSegment ==> realtime_server_event_type_of(e) == "conversation.item.input_audio_transcription.segment"@,
        e is McpListToolsInProgress ==> realtime_server_event_type_of(e) == "mcp_list_tools.in_progress"@,
        e is McpListToolsCompleted ==> realtime_server_event_type_of(e) == "mcp_list_tools.completed"@,
        e is McpListToolsFailed ==> realtime_server_event_type_of(e) == "mcp_list_tools.failed"@,
        e is ResponseMcpCallArgumentsDelta ==> realtime_server_event_type_of(e) == "response.mcp_call_arguments.delta"@,
        e is ResponseMcpCallArgumentsDone ==> realtime_server_event_type_of(e) == "response.mcp_call_arguments.done"@,
        e is ResponseMcpCallInProgress ==> realtime_server_event_type_of(e) == "response.mcp_call.in_progress"@,
        e is ResponseMcpCallCompleted ==> realtime_server_event_type_of(e) == "response.mcp_call.completed"@,
        e is ResponseMcpCallFailed ==> realtime_server_event_type_of(e) == "response.mcp_call.failed"@,
{
}


impl RealtimeServerEvent {
    /// The wire tag of the event.
    pub fn event_type(&self) -> (r: &str)
        ensures
            r@ == realtime_server_event_type_of(*self),
    {
        match self {
            RealtimeServerEvent::ConversationCreated(_) => "conversation.created",
            RealtimeServerEvent::ConversationItemCreated(_) => "conversation.item.created",
            RealtimeServerEvent::ConversationItemDeleted(_) => "conversation.item.deleted",
            RealtimeServerEvent::InputAudioTranscriptionCompleted(_) => "conversation.item.input_audio_transcription.completed",
            RealtimeServerEvent::InputAudioTranscriptionDelta(_) => "conversation.item.input_audio_transcription.delta",
            RealtimeServerEvent::InputAudioTranscriptionFailed(_) => "conversation.item.input_audio_transcription.failed",
            RealtimeServerEvent::ConversationItemRetrieved(_) => "conversation.item.retrieved",
            RealtimeServerEvent::ConversationItemTruncated(_) => "conversation.item.truncated",
            RealtimeServerEvent::Error(_) => "error",
            RealtimeServerEvent::InputAudioBufferCleared(_) => "input_audio_buffer.cleared",
            RealtimeServerEvent::InputAudioBufferCommitted(_) => "input_audio_buffer.committed",
            RealtimeServerEvent::InputAudioBufferDtmfEventReceived(_) => "input_audio_buffer.dtmf_event_received",
            RealtimeServerEvent::InputAudioBufferSpeechStarted(_) => "input_audio_buffer.speech_started",
            RealtimeServerEvent::InputAudioBufferSpeechStopped(_) => "input_audio_buffer.speech_stopped",
            RealtimeServerEvent::RateLimitsUpdated(_) => "rate_limits.updated",
            RealtimeServerEvent::ResponseAudioDelta(_) => "response.output_audio.delta",
            RealtimeServerEvent::ResponseAudioDone(_) => "response.output_audio.done",
            RealtimeServerEvent::ResponseAudioTranscriptDelta(_) => "response.output_audio_transcript.delta",
            RealtimeServerEvent::ResponseAudioTranscriptDone(_) => "response.output_audio_transcript.done",
            RealtimeServerEvent::ResponseContentPartAdded(_) => "response.content_part.added",
            RealtimeServerEvent::ResponseContentPartDone(_) => "response.content_part.done",
            RealtimeServerEvent::ResponseCreated(_) => "response.created",
            RealtimeServerEvent::ResponseDone(_) => "response.done",
            RealtimeServerEvent::ResponseFunctionCallArgumentsDelta(_) => "response.function_call_arguments.delta",
            RealtimeServerEvent::ResponseFunctionCallArgumentsDone(_) => "response.function_call_arguments.done",
            RealtimeServerEvent::ResponseOutputItemAdded(_) => "response.output_item.added",
            RealtimeServerEvent::ResponseOutputItemDone(_) => "response.output_item.done",
            RealtimeServerEvent::ResponseTextDelta(_) => "response.output_text.delta",
            RealtimeServerEvent::ResponseTextDone(_) => "response.output_text.done",
            RealtimeServerEvent::SessionCreated(_) => "session.created",
            RealtimeServerEvent::SessionUpdated(_) => "session.updated",
            RealtimeServerEvent::OutputAudioBufferStarted(_) => "output_audio_buffer.started",
            RealtimeServerEvent::OutputAudioBufferStopped(_) => "output_audio_buffer.stopped",
            RealtimeServerEvent::OutputAudioBufferCleared(_) => "output_audio_buffer.cleared",
            RealtimeServerEvent::ConversationItemAdded(_) => "conversation.item.added",
            RealtimeServerEvent::ConversationItemDone(_) => "conversation.item.done",
            RealtimeServerEvent::InputAudioBufferTimeoutTriggered(_) => "input_audio_buffer.timeout_triggered",
            RealtimeServerEvent::InputAudioTranscriptionSegment(_) => "conversation.item.input_audio_transcription.segment",
            RealtimeServerEvent::McpListToolsInProgress(_) => "mcp_list_tools.in_progress",
            RealtimeServerEvent::McpListToolsCompleted(_) => "mcp_list_tools.completed",
            RealtimeServerEvent::McpListToolsFailed(_) => "mcp_list_tools.failed",
            RealtimeServerEvent::ResponseMcpCallArgumentsDelta(_) => "response.mcp_call_arguments.delta",
            RealtimeServerEvent::ResponseMcpCallArgumentsDone(_) => "response.mcp_call_arguments.done",
            RealtimeServerEvent::ResponseMcpCallInProgress(_) => "response.mcp_call.in_progress",
            RealtimeServerEvent::ResponseMcpCallCompleted(_) => "response.mcp_call.completed",
            RealtimeServerEvent::ResponseMcpCallFailed(_) => "response.mcp_call.failed",
            RealtimeServerEvent::Unknown(u) => u.discriminator(),
        }
    }

}

/// Events a translation session sends; an event of a `type` not modelled here is kept whole.
#[derive(Clone)]
pub enum RealtimeTranslationServerEvent {
    Error(Box<RealtimeServerEventError>),
    SessionCreated(Box<RealtimeTranslationServerEventSessionCreated>),
    SessionUpdated(Box<RealtimeTranslationServerEventSessionUpdated>),
    SessionClosed(Box<RealtimeTranslationServerEventSessionClosed>),
    InputTranscriptDelta(Box<RealtimeTranslationServerEventSessionInputTranscriptDelta>),
    OutputTranscriptDelta(Box<RealtimeTranslationServerEventSessionOutputTranscriptDelta>),
    OutputAudioDelta(Box<RealtimeTranslationServerEventSessionOutputAudioDelta>),
    Unknown(UnknownRealtimeObject),
}

/// The variant a `type` tag of events a translation session sends selects.
#[derive(Debug, Clone, Copy, PartialEq, Eq, Structural)]
pub enum RealtimeTranslationServerEventKind {
    Error,
    SessionCreated,
    SessionUpdated,
    SessionClosed,
    InputTranscriptDelta,
    OutputTranscriptDelta,
    OutputAudioDelta,
    Unknown,
}

impl RealtimeTranslationServerEventKind {
    /// The kind a tag selects.
    pub open spec fn of_tag(tag: Seq<char>) -> Self {
        if tag == "error"@ {
            RealtimeTranslationServerEventKind::Error
        } else if tag == "session.created"@ {
            RealtimeTranslationServerEventKind::SessionCreated
        } else if tag == "session.updated"@ {
            RealtimeTranslationServerEventKind::SessionUpdated
        } else if tag == "session.closed"@ {
            RealtimeTranslationServerEventKind::SessionClosed
        } else if tag == "session.input_transcript.delta"@ {
            RealtimeTranslationServerEventKind::InputTranscriptDelta
        } else if tag == "session.output_transcript.delta"@ {
            RealtimeTranslationServerEventKind::OutputTranscriptDelta
        } else if tag == "session.output_audio.delta"@ {
            RealtimeTranslationServerEventKind::OutputAudioDelta
        } else {
            RealtimeTranslationServerEventKind::Unknown
        }
    }

    /// The kind a decoded event's `type` tag selects.
    pub fn from_tag(tag: &str) -> (r: Self)
        ensures
            r == Self::of_tag(tag@),
    {
        if chars_eq(tag, "error") {
            RealtimeTranslationServerEventKind::Error
        } else if chars_eq(tag, "session.created") {
            RealtimeTranslationServerEventKind::SessionCreated
        } else if chars_eq(tag, "session.updated") {
            RealtimeTranslationServerEventKind::SessionUpdated
        } else if chars_eq(tag, "session.closed") {
            RealtimeTranslationServerEventKind::SessionClosed
        } else if chars_eq(tag, "session.input_transcript.delta") {
            RealtimeTranslationServerEventKind::InputTranscriptDelta
        } else if chars_eq(tag, "session.output_transcript.delta") {
            RealtimeTranslationServerEventKind::OutputTranscriptDelta
        } else if chars_eq(tag, "session.output_audio.delta") {
            RealtimeTranslationServerEventKind::OutputAudioDelta
        } else {
            RealtimeTranslationServerEventKind::Unknown
        }
    }
}

/// The wire tag of an event: fixed per variant, the received one for an
/// event kept whole.
pub open spec fn realtime_translation_server_event_type_of(e: RealtimeTranslationServerEvent) -> Seq<char> {
    match e {
        RealtimeTranslationServerEvent::Error(_) => "error"@,
        RealtimeTranslationServerEvent::SessionCreated(_) => "session.created"@,
        RealtimeTranslationServerEvent::SessionUpdated(_) => "session.updated"@,
        RealtimeTranslationServerEvent::SessionClosed(_) => "session.closed"@,
        RealtimeTranslationServerEvent::InputTranscriptDelta(_) => "session.input_transcript.delta"@,
        RealtimeTranslationServerEvent::OutputTranscriptDelta(_) => "session.output_transcript.delta"@,
        RealtimeTranslationServerEvent::OutputAudioDelta(_) => "session.output_audio.delta"@,
        RealtimeTranslationServerEvent::Unknown(u) => u@.0,
    }
}

/// The kind of a translation-session event.
pub open spec fn realtime_translation_server_event_kind_of(e: RealtimeTranslationServerEvent) -> RealtimeTranslationServerEventKind {
    match e {
        RealtimeTranslationServerEvent::Error(_) => RealtimeTranslationServerEventKind::Error,
        RealtimeTranslationServerEvent::SessionCreated(_) => RealtimeTranslationServerEventKind::SessionCreated,
        RealtimeTranslationServerEvent::SessionUpdated(_) => RealtimeTranslationServerEventKind::SessionUpdated,
        RealtimeTranslationServerEvent::SessionClosed(_) => RealtimeTranslationServerEventKind::SessionClosed,
        RealtimeTranslationServerEvent::InputTranscriptDelta(_) => RealtimeTranslationServerEventKind::InputTranscriptDelta,
        RealtimeTranslationServerEvent::OutputTranscriptDelta(_) => RealtimeTranslationServerEventKind::OutputTranscriptDelta,
        RealtimeTranslationServerEvent::OutputAudioDelta(_) => RealtimeTranslationServerEventKind::OutputAudioDelta,
        RealtimeTranslationServerEvent::Unknown(_) => RealtimeTranslationServerEventKind::Unknown,
    }
}

/// Each `type` tag of the translation server-event schema selects the
/// variant that the schema pairs with it; any other tag selects none, and
/// the event is kept whole.
pub proof fn law_translation_server_event_tags_select_schema_variants(tag: Seq<char>)
    ensures
        tag == "error"@ ==> RealtimeTranslationServerEventKind::of_tag(tag) == RealtimeTranslationServerEventKind::Error,
        tag == "session.created"@ ==> RealtimeTranslationServerEventKind::of_tag(tag) == RealtimeTranslationServerEventKind::SessionCreated,
        tag == "session.updated"@ ==> RealtimeTranslationServerEventKind::of_tag(tag) == RealtimeTranslationServerEventKind::SessionUpdated,
        tag == "session.closed"@ ==> RealtimeTranslationServerEventKind::of_tag(tag) == RealtimeTranslationServerEventKind::SessionClosed,
        tag == "session.input_transcript.delta"@ ==> RealtimeTranslationServerEventKind::of_tag(tag) == RealtimeTranslationServerEventKind::InputTranscriptDelta,
        tag == "session.output_transcript.delta"@ ==> RealtimeTranslationServerEventKind::of_tag(tag) == RealtimeTranslationServerEventKind::OutputTranscriptDelta,
        tag == "session.output_audio.delta"@ ==> RealtimeTranslationServerEventKind::of_tag(tag) == RealtimeTranslationServerEventKind::OutputAudioDelta,
        !(tag == "error"@ || tag == "session.created"@ || tag == "session.updated"@ || tag == "session.closed"@ || tag == "session.input_transcript.delta"@ || tag == "session.output_transcript.delta"@ || tag == "session.output_audio.delta"@) ==> RealtimeTranslationServerEventKind::of_tag(tag) == RealtimeTranslationServerEventKind::Unknown,
{
    reveal_strlit("error");
    reveal_strlit("session.created");
    reveal_strlit("session.updated");
    reveal_strlit("session.closed");
    reveal_strlit("session.input_transcript.delta");
    reveal_strlit("session.output_transcript.delta");
    reveal_strlit("session.output_audio.delta");
    assert("error"@.len() == 5);
    assert("session.created"@.len() == 15);
    assert("session.updated"@.len() == 15);
    assert("session.closed"@.len() == 14);
    assert("session.input_transcript.delta"@.len() == 30);
    assert("session.output_transcript.delta"@.len() == 31);
    assert("session.output_audio.delta"@.len() == 26);
    assert("session.created"@[8] != "session.updated"@[8]);
}

/// Each translation server event reports the `type` tag that the schema
/// pairs with its variant.
pub proof fn law_translation_server_events_report_schema_tags(e: RealtimeTranslationServerEvent)
    ensures
        e is Error ==> realtime_translation_server_event_type_of(e) == "error"@,
        e is SessionCreated ==> realtime_translation_server_event_type_of(e) == "session.created"@,
        e is SessionUpdated ==> realtime_translation_server_event_type_of(e) == "session.updated"@,
        e is SessionClosed ==> realtime_translation_server_event_type_of(e) == "session.closed"@,
        e is InputTranscriptDelta ==> realtime_translation_server_event_type_of(e) == "session.input_transcript.delta"@,
        e is OutputTranscriptDelta ==> realtime_translation_server_event_type_of(e) == "session.output_transcript.delta"@,
        e is OutputAudioDelta ==> realtime_translation_server_event_type_of(e) == "session.output_audio.delta"@,
{
}


/// Routing a translation-session event by the tag it reports gives back its own kind.
pub proof fn law_translation_server_event_tag_round_trip(e: RealtimeTranslationServerEvent)
    requires
        !(e is Unknown),
    ensures
        RealtimeTranslationServerEventKind::of_tag(realtime_translation_server_event_type_of(e)) == realtime_translation_server_event_kind_of(e),
{
    reveal_strlit("error");
    reveal_strlit("session.created");
    reveal_strlit("session.updated");
    reveal_strlit("session.closed");
    reveal_strlit("session.input_transcript.delta");
    reveal_strlit("session.output_transcript.delta");
    reveal_strlit("session.output_audio.delta");
    assert("error"@.len() == 5);
    assert("session.created"@.len() == 15);
    assert("session.updated"@.len() == 15);
    assert("session.closed"@.len() == 14);
    assert("session.input_transcript.delta"@.len() == 30);
    assert("session.output_transcript.delta"@.len() == 31);
    assert("session.output_audio.delta"@.len() == 26);
    match e {
        RealtimeTranslationServerEvent::Error(_) => {},
        RealtimeTranslationServerEvent::SessionCreated(_) => {},
        RealtimeTranslationServerEvent::SessionUpdated(_) => {
            assert("session.updated"@[8] != "session.created"@[8]);
        },
        RealtimeTranslationServerEvent::SessionClosed(_) => {},
        RealtimeTranslationServerEvent::InputTranscriptDelta(_) => {},
        RealtimeTranslationServerEvent::OutputTranscriptDelta(_) => {},
        RealtimeTranslationServerEvent::OutputAudioDelta(_) => {},
        RealtimeTranslationServerEvent::Unknown(_) => {},
    }
}

impl RealtimeTranslationServerEvent {
    /// The wire tag of the event.
    pub fn event_type(&self) -> (r: &str)
        ensures
            r@ == realtime_translation_server_event_type_of(*self),
    {
        match self {
            RealtimeTranslationServerEvent::Error(_) => "error",
            RealtimeTranslationServerEvent::SessionCreated(_) => "session.created",
            RealtimeTranslationServerEvent::SessionUpdated(_) => "session.updated",
            RealtimeTranslationServerEvent::SessionClosed(_) => "session.closed",
            RealtimeTranslationServerEvent::InputTranscriptDelta(_) => "session.input_transcript.delta",
            RealtimeTranslationServerEvent::OutputTranscriptDelta(_) => "session.output_transcript.delta",
            RealtimeTranslationServerEvent::OutputAudioDelta(_) => "session.output_audio.delta",
            RealtimeTranslationServerEvent::Unknown(u) => u.discriminator(),
        }
    }

}

/// Schema names of the events a Realtime server sends.
pub const REALTIME_SERVER_EVENT_BRANCHES: [&'static str; 46] = [
    "RealtimeServerEventConversationCreated",
    "RealtimeServerEventConversationItemAdded",
    "RealtimeServerEventConversationItemCreated",
    "RealtimeServerEventConversationItemDeleted",
    "RealtimeServerEventConversationItemDone",
    "RealtimeServerEventConversationItemInputAudioTranscriptionCompleted",
    "RealtimeServerEventConversationItemInputAudioTranscriptionDelta",
    "RealtimeServerEventConversationItemInputAudioTranscriptionFailed",
    "RealtimeServerEventConversationItemInputAudioTranscriptionSegment",
    "RealtimeServerEventConversationItemRetrieved",
    "RealtimeServerEventConversationItemTruncated",
    "RealtimeServerEventError",
    "RealtimeServerEventInputAudioBufferCleared",
    "RealtimeServerEventInputAudioBufferCommitted",
    "RealtimeServerEventInputAudioBufferDtmfEventReceived",
    "RealtimeServerEventInputAudioBufferSpeechStarted",
    "RealtimeServerEventInputAudioBufferSpeechStopped",
    "RealtimeServerEventInputAudioBufferTimeoutTriggered",
    "RealtimeServerEventMCPListToolsCompleted",
    "RealtimeServerEventMCPListToolsFailed",
    "RealtimeServerEventMCPListToolsInProgress",
    "RealtimeServerEventOutputAudioBufferCleared",
    "RealtimeServerEventOutputAudioBufferStarted",
    "RealtimeServerEventOutputAudioBufferStopped",
    "RealtimeServerEventRateLimitsUpdated",
    "RealtimeServerEventResponseAudioDelta",
    "RealtimeServerEventResponseAudioDone",
    "RealtimeServerEventResponseAudioTranscriptDelta",
    "RealtimeServerEventResponseAudioTranscriptDone",
    "RealtimeServerEventResponseContentPartAdded",
    "RealtimeServerEventResponseContentPartDone",
    "RealtimeServerEventResponseCreated",
    "RealtimeServerEventResponseDone",
    "RealtimeServerEventResponseFunctionCallArgumentsDelta",
    "RealtimeServerEventResponseFunctionCallArgumentsDone",
    "RealtimeServerEventResponseMCPCallArgumentsDelta",
    "RealtimeServerEventResponseMCPCallArgumentsDone",
    "RealtimeServerEventResponseMCPCallCompleted",
    "RealtimeServerEventResponseMCPCallFailed",
    "RealtimeServerEventResponseMCPCallInProgress",
    "RealtimeServerEventResponseOutputItemAdded",
    "RealtimeServerEventResponseOutputItemDone",
    "RealtimeServerEventResponseTextDelta",
    "RealtimeServerEventResponseTextDone",
    "RealtimeServerEventSessionCreated",
    "RealtimeServerEventSessionUpdated",
];

/// Wire tags of the events a Realtime server sends.
pub const REALTIME_SERVER_EVENT_TAGS: [&'static str; 46] = [
    "conversation.created",
    "conversation.item.added",
    "conversation.item.created",
    "conversation.item.deleted",
    "conversation.item.done",
    "conversation.item.input_audio_transcription.completed",
    "conversation.item.input_audio_transcription.delta",
    "conversation.item.input_audio_transcription.failed",
    "conversation.item.input_audio_transcription.segment",
    "conversation.item.retrieved",
    "conversation.item.truncated",
    "error",
    "input_audio_buffer.cleared",
    "input_audio_buffer.committed",
    "input_audio_buffer.dtmf_event_received",
    "input_audio_buffer.speech_started",
    "input_audio_buffer.speech_stopped",
    "input_audio_buffer.timeout_triggered",
    "mcp_list_tools.completed",
    "mcp_list_tools.failed",
    "mcp_list_tools.in_progress",
    "output_audio_buffer.cleared",
    "output_audio_buffer.started",
    "output_audio_buffer.stopped",
    "rate_limits.updated",
    "response.content_part.added",
    "response.content_part.done",
    "response.created",
    "response.done",
    "response.function_call_arguments.delta",
    "response.function_call_arguments.done",
    "response.mcp_call.completed",
    "response.mcp_call.failed",
    "response.mcp_call.in_progress",
    "response.mcp_call_arguments.delta",
    "response.mcp_call_arguments.done",
    "response.output_audio.delta",
    "response.output_audio.done",
    "response.output_audio_transcript.delta",
    "response.output_audio_transcript.done",
    "response.output_item.added",
    "response.output_item.done",
    "response.output_text.delta",
    "response.output_text.done",
    "session.created",
    "session.updated",
];

/// Schema names of the events a translation session sends.
pub const REALTIME_TRANSLATION_SERVER_EVENT_BRANCHES: [&'static str; 7] = [
    "RealtimeServerEventError",
    "RealtimeTranslationServerEventSessionClosed",
    "RealtimeTranslationServerEventSessionCreated",
    "RealtimeTranslationServerEventSessionInputTranscriptDelta",
    "RealtimeTranslationServerEventSessionOutputAudioDelta",
    "RealtimeTranslationServerEventSessionOutputTranscriptDelta",
    "RealtimeTranslationServerEventSessionUpdated",
];

/// Wire tags of the events a translation session sends.
pub const REALTIME_TRANSLATION_SERVER_EVENT_TAGS: [&'static str; 7] = [
    "error",
    "session.closed",
    "session.created",
    "session.input_transcript.delta",
    "session.output_audio.delta",
    "session.output_transcript.delta",
    "session.updated",
];

impl From<RealtimeServerEventConversationCreated> for RealtimeServerEvent {
    fn from(v: RealtimeServerEventConversationCreated) -> (r: Self) {
        RealtimeServerEvent::ConversationCreated(Box::new(v))
    }
}

impl vstd::std_specs::convert::FromSpecImpl<RealtimeServerEventConversationCreated> for RealtimeServerEvent {
    open spec fn obeys_from_spec() -> bool {
        true
    }

    open spec fn from_spec(v: RealtimeServerEventConversationCreated) -> Self {
        RealtimeServerEvent::ConversationCreated(Box::new(v))
    }
}

impl From<RealtimeServerEventConversationItemCreated> for RealtimeServerEvent {
    fn from(v: RealtimeServerEventConversationItemCreated) -> (r: Self) {
        RealtimeServerEvent::ConversationItemCreated(Box::new(v))
    }
}

impl vstd::std_specs::convert::FromSpecImpl<RealtimeServerEventConversationItemCreated> for RealtimeServerEvent {
    open spec fn obeys_from_spec() -> bool {
        true
    }

    open spec fn from_spec(v: RealtimeServerEventConversationItemCreated) -> Self {
        RealtimeServerEvent::ConversationItemCreated(Box::new(v))
    }
}

impl From<RealtimeServerEventConversationItemDeleted> for RealtimeServerEvent {
    fn from(v: RealtimeServerEventConversationItemDeleted) -> (r: Self) {
        RealtimeServerEvent::ConversationItemDeleted(Box::new(v))
    }
}

impl vstd::std_specs::convert::FromSpecImpl<RealtimeServerEventConversationItemDeleted> for RealtimeServerEvent {
    open spec fn obeys_from_spec() -> bool {
        true
    }

    open spec fn from_spec(v: RealtimeServerEventConversationItemDeleted) -> Self {
        RealtimeServerEvent::ConversationItemDeleted(Box::new(v))
    }
}

impl From<RealtimeServerEventConversationItemInputAudioTranscriptionCompleted> for RealtimeServerEvent {
    fn from(v: RealtimeServerEventConversationItemInputAudioTranscriptionCompleted) -> (r: Self) {
        RealtimeServerEvent::InputAudioTranscriptionCompleted(Box::new(v))
    }
}

impl vstd::std_specs::convert::FromSpecImpl<RealtimeServerEventConversationItemInputAudioTranscriptionCompleted> for RealtimeServerEvent {
    open spec fn obeys_from_spec() -> bool {
        true
    }

    open spec fn from_spec(v: RealtimeServerEventConversationItemInputAudioTranscriptionCompleted) -> Self {
        RealtimeServerEvent::InputAudioTranscriptionCompleted(Box::new(v))
    }
}

impl From<RealtimeServerEventConversationItemInputAudioTranscriptionDelta> for RealtimeServerEvent {
    fn from(v: RealtimeServerEventConversationItemInputAudioTranscriptionDelta) -> (r: Self) {
        RealtimeServerEvent::InputAudioTranscriptionDelta(Box::new(v))
    }
}

impl vstd::std_specs::convert::FromSpecImpl<RealtimeServerEventConversationItemInputAudioTranscriptionDelta> for RealtimeServerEvent {
    open spec fn obeys_from_spec() -> bool {
        true
    }

    open spec fn from_spec(v: RealtimeServerEventConversationItemInputAudioTranscriptionDelta) -> Self {
        RealtimeServerEvent::InputAudioTranscriptionDelta(Box::new(v))
    }
}

impl From<RealtimeServerEventConversationItemInputAudioTranscriptionFailed> for RealtimeServerEvent {
    fn from(v: RealtimeServerEventConversationItemInputAudioTranscriptionFailed) -> (r: Self) {
        RealtimeServerEvent::InputAudioTranscriptionFailed(Box::new(v))
    }
}

impl vstd::std_specs::convert::FromSpecImpl<RealtimeServerEventConversationItemInputAudioTranscriptionFailed> for RealtimeServerEvent {
    open spec fn obeys_from_spec() -> bool {
        true
    }

    open spec fn from_spec(v: RealtimeServerEventConversationItemInputAudioTranscriptionFailed) -> Self {
        RealtimeServerEvent::InputAudioTranscriptionFailed(Box::new(v))
    }
}

impl From<RealtimeServerEventConversationItemRetrieved> for RealtimeServerEvent {
    fn from(v: RealtimeServerEventConversationItemRetrieved) -> (r: Self) {
        RealtimeServerEvent::ConversationItemRetrieved(Box::new(v))
    }
}

impl vstd::std_specs::convert::FromSpecImpl<RealtimeServerEventConversationItemRetrieved> for RealtimeServerEvent {
    open spec fn obeys_from_spec() -> bool {
        true
    }

    open spec fn from_spec(v: RealtimeServerEventConversationItemRetrieved) -> Self {
        RealtimeServerEvent::ConversationItemRetrieved(Box::new(v))
    }
}

impl From<RealtimeServerEventConversationItemTruncated> for RealtimeServerEvent {
    fn from(v: RealtimeServerEventConversationItemTruncated) -> (r: Self) {
        RealtimeServerEvent::ConversationItemTruncated(Box::new(v))
    }
}

impl vstd::std_specs::convert::FromSpecImpl<RealtimeServerEventConversationItemTruncated> for RealtimeServerEvent {
    open spec fn obeys_from_spec() -> bool {
        true
    }

    open spec fn from_spec(v: RealtimeServerEventConversationItemTruncated) -> Self {
        RealtimeServerEvent::ConversationItemTruncated(Box::new(v))
    }
}

impl From<RealtimeServerEventError> for RealtimeServerEvent {
    fn from(v: RealtimeServerEventError) -> (r: Self) {
        RealtimeServerEvent::Error(Box::new(v))
    }
}

impl vstd::std_specs::convert::FromSpecImpl<RealtimeServerEventError> for RealtimeServerEvent {
    open spec fn obeys_from_spec() -> bool {
        true
    }

    open spec fn from_spec(v: RealtimeServerEventError) -> Self {
        RealtimeServerEvent::Error(Box::new(v))
    }
}

impl From<RealtimeServerEventInputAudioBufferCleared> for RealtimeServerEvent {
    fn from(v: RealtimeServerEventInputAudioBufferCleared) -> (r: Self) {
        RealtimeServerEvent::InputAudioBufferCleared(Box::new(v))
    }
}

impl vstd::std_specs::convert::FromSpecImpl<RealtimeServerEventInputAudioBufferCleared> for RealtimeServerEvent {
    open spec fn obeys_from_spec() -> bool {
        true
    }

    open spec fn from_spec(v: RealtimeServerEventInputAudioBufferCleared) -> Self {
        RealtimeServerEvent::InputAudioBufferCleared(Box::new(v))
    }
}

impl From<RealtimeServerEventInputAudioBufferCommitted> for RealtimeServerEvent {
    fn from(v: RealtimeServerEventInputAudioBufferCommitted) -> (r: Self) {
        RealtimeServerEvent::InputAudioBufferCommitted(Box::new(v))
    }
}

impl vstd::std_specs::convert::FromSpecImpl<RealtimeServerEventInputAudioBufferCommitted> for RealtimeServerEvent {
    open spec fn obeys_from_spec() -> bool {
        true
    }

    open spec fn from_spec(v: RealtimeServerEventInputAudioBufferCommitted) -> Self {
        RealtimeServerEvent::InputAudioBufferCommitted(Box::new(v))
    }
}

impl From<RealtimeServerEventInputAudioBufferDtmfEventReceived> for RealtimeServerEvent {
    fn from(v: RealtimeServerEventInputAudioBufferDtmfEventReceived) -> (r: Self) {
        RealtimeServerEvent::InputAudioBufferDtmfEventReceived(Box::new(v))
    }
}

impl vstd::std_specs::convert::FromSpecImpl<RealtimeServerEventInputAudioBufferDtmfEventReceived> for RealtimeServerEvent {
    open spec fn obeys_from_spec() -> bool {
        true
    }

    open spec fn from_spec(v: RealtimeServerEventInputAudioBufferDtmfEventReceived) -> Self {
        RealtimeServerEvent::InputAudioBufferDtmfEventReceived(Box::new(v))
    }
}

impl From<RealtimeServerEventInputAudioBufferSpeechStarted> for RealtimeServerEvent {
    fn from(v: RealtimeServerEventInputAudioBufferSpeechStarted) -> (r: Self) {
        RealtimeServerEvent::InputAudioBufferSpeechStarted(Box::new(v))
    }
}

impl vstd::std_specs::convert::FromSpecImpl<RealtimeServerEventInputAudioBufferSpeechStarted> for RealtimeServerEvent {
    open spec fn obeys_from_spec() -> bool {
        true
    }

    open spec fn from_spec(v: RealtimeServerEventInputAudioBufferSpeechStarted) -> Self {
        RealtimeServerEvent::InputAudioBufferSpeechStarted(Box::new(v))
    }
}

impl From<RealtimeServerEventInputAudioBufferSpeechStopped> for RealtimeServerEvent {
    fn from(v: RealtimeServerEventInputAudioBufferSpeechStopped) -> (r: Self) {
        RealtimeServerEvent::InputAudioBufferSpeechStopped(Box::new(v))
    }
}

impl vstd::std_specs::convert::FromSpecImpl<RealtimeServerEventInputAudioBufferSpeechStopped> for RealtimeServerEvent {
    open spec fn obeys_from_spec() -> bool {
        true
    }

    open spec fn from_spec(v: RealtimeServerEventInputAudioBufferSpeechStopped) -> Self {
        RealtimeServerEvent::InputAudioBufferSpeechStopped(Box::new(v))
    }
}

impl From<RealtimeServerEventRateLimitsUpdated> for RealtimeServerEvent {
    fn from(v: RealtimeServerEventRateLimitsUpdated) -> (r: Self) {
        RealtimeServerEvent::RateLimitsUpdated(Box::new(v))
    }
}

impl vstd::std_specs::convert::FromSpecImpl<RealtimeServerEventRateLimitsUpdated> for RealtimeServerEvent {
    open spec fn obeys_from_spec() -> bool {
        true
    }

    open spec fn from_spec(v: RealtimeServerEventRateLimitsUpdated) -> Self {
        RealtimeServerEvent::RateLimitsUpdated(Box::new(v))
    }
}

impl From<RealtimeServerEventResponseAudioDelta> for RealtimeServerEvent {
    fn from(v: RealtimeServerEventResponseAudioDelta) -> (r: Self) {
        RealtimeServerEvent::ResponseAudioDelta(Box::new(v))
    }
}

impl vstd::std_specs::convert::FromSpecImpl<RealtimeServerEventResponseAudioDelta> for RealtimeServerEvent {
    open spec fn obeys_from_spec() -> bool {
        true
    }

    open spec fn from_spec(v: RealtimeServerEventResponseAudioDelta) -> Self {
        RealtimeServerEvent::ResponseAudioDelta(Box::new(v))
    }
}

impl From<RealtimeServerEventResponseAudioDone> for RealtimeServerEvent {
    fn from(v: RealtimeServerEventResponseAudioDone) -> (r: Self) {
        RealtimeServerEvent::ResponseAudioDone(Box::new(v))
    }
}

impl vstd::std_specs::convert::FromSpecImpl<RealtimeServerEventResponseAudioDone> for RealtimeServerEvent {
    open spec fn obeys_from_spec() -> bool {
        true
    }

    open spec fn from_spec(v: RealtimeServerEventResponseAudioDone) -> Self {
        RealtimeServerEvent::ResponseAudioDone(Box::new(v))
    }
}

impl From<RealtimeServerEventResponseAudioTranscriptDelta> for RealtimeServerEvent {
    fn from(v: RealtimeServerEventResponseAudioTranscriptDelta) -> (r: Self) {
        RealtimeServerEvent::ResponseAudioTranscriptDelta(Box::new(v))
    }
}

impl vstd::std_specs::convert::FromSpecImpl<RealtimeServerEventResponseAudioTranscriptDelta> for RealtimeServerEvent {
    open spec fn obeys_from_spec() -> bool {
        true
    }

    open spec fn from_spec(v: RealtimeServerEventResponseAudioTranscriptDelta) -> Self {
        RealtimeServerEvent::ResponseAudioTranscriptDelta(Box::new(v))
    }
}

impl From<RealtimeServerEventResponseAudioTranscriptDone> for RealtimeServerEvent {
    fn from(v: RealtimeServerEventResponseAudioTranscriptDone) -> (r: Self) {
        RealtimeServerEvent::ResponseAudioTranscriptDone(Box::new(v))
    }
}

impl vstd::std_specs::convert::FromSpecImpl<RealtimeServerEventResponseAudioTranscriptDone> for RealtimeServerEvent {
    open spec fn obeys_from_spec() -> bool {
        true
    }

    open spec fn from_spec(v: RealtimeServerEventResponseAudioTranscriptDone) -> Self {
        RealtimeServerEvent::ResponseAudioTranscriptDone(Box::new(v))
    }
}

impl From<RealtimeServerEventResponseContentPartAdded> for RealtimeServerEvent {
    fn from(v: RealtimeServerEventResponseContentPartAdded) -> (r: Self) {
        RealtimeServerEvent::ResponseContentPartAdded(Box::new(v))
    }
}

impl vstd::std_specs::convert::FromSpecImpl<RealtimeServerEventResponseContentPartAdded> for RealtimeServerEvent {
    open spec fn obeys_from_spec() -> bool {
        true
    }

    open spec fn from_spec(v: RealtimeServerEventResponseContentPartAdded) -> Self {
        RealtimeServerEvent::ResponseContentPartAdded(Box::new(v))
    }
}

impl From<RealtimeServerEventResponseContentPartDone> for RealtimeServerEvent {
    fn from(v: RealtimeServerEventResponseContentPartDone) -> (r: Self) {
        RealtimeServerEvent::ResponseContentPartDone(Box::new(v))
    }
}

impl vstd::std_specs::convert::FromSpecImpl<RealtimeServerEventResponseContentPartDone> for RealtimeServerEvent {
    open spec fn obeys_from_spec() -> bool {
        true
    }

    open spec fn from_spec(v: RealtimeServerEventResponseContentPartDone) -> Self {
        RealtimeServerEvent::ResponseContentPartDone(Box::new(v))
    }
}

impl From<RealtimeServerEventResponseCreated> for RealtimeServerEvent {
    fn from(v: RealtimeServerEventResponseCreated) -> (r: Self) {
        RealtimeServerEvent::ResponseCreated(Box::new(v))
    }
}

impl vstd::std_specs::convert::FromSpecImpl<RealtimeServerEventResponseCreated> for RealtimeServerEvent {
    open spec fn obeys_from_spec() -> bool {
        true
    }

    open spec fn from_spec(v: RealtimeServerEventResponseCreated) -> Self {
        RealtimeServerEvent::ResponseCreated(Box::new(v))
    }
}

impl From<RealtimeServerEventResponseDone> for RealtimeServerEvent {
    fn from(v: RealtimeServerEventResponseDone) -> (r: Self) {
        RealtimeServerEvent::ResponseDone(Box::new(v))
    }
}

impl vstd::std_specs::convert::FromSpecImpl<RealtimeServerEventResponseDone> for RealtimeServerEvent {
    open spec fn obeys_from_spec() -> bool {
        true
    }

    open spec fn from_spec(v: RealtimeServerEventResponseDone) -> Self {
        RealtimeServerEvent::ResponseDone(Box::new(v))
    }
}

impl From<RealtimeServerEventResponseFunctionCallArgumentsDelta> for RealtimeServerEvent {
    fn from(v: RealtimeServerEventResponseFunctionCallArgumentsDelta) -> (r: Self) {
        RealtimeServerEvent::ResponseFunctionCallArgumentsDelta(Box::new(v))
    }
}

impl vstd::std_specs::convert::FromSpecImpl<RealtimeServerEventResponseFunctionCallArgumentsDelta> for RealtimeServerEvent {
    open spec fn obeys_from_spec() -> bool {
        true
    }

    open spec fn from_spec(v: RealtimeServerEventResponseFunctionCallArgumentsDelta) -> Self {
        RealtimeServerEvent::ResponseFunctionCallArgumentsDelta(Box::new(v))
    }
}

impl From<RealtimeServerEventResponseFunctionCallArgumentsDone> for RealtimeServerEvent {
    fn from(v: RealtimeServerEventResponseFunctionCallArgumentsDone) -> (r: Self) {
        RealtimeServerEvent::ResponseFunctionCallArgumentsDone(Box::new(v))
    }
}

impl vstd::std_specs::convert::FromSpecImpl<RealtimeServerEventResponseFunctionCallArgumentsDone> for RealtimeServerEvent {
    open spec fn obeys_from_spec() -> bool {
        true
    }

    open spec fn from_spec(v: RealtimeServerEventResponseFunctionCallArgumentsDone) -> Self {
        RealtimeServerEvent::ResponseFunctionCallArgumentsDone(Box::new(v))
    }
}

impl From<RealtimeServerEventResponseOutputItemAdded> for RealtimeServerEvent {
    fn from(v: RealtimeServerEventResponseOutputItemAdded) -> (r: Self) {
        RealtimeServerEvent::ResponseOutputItemAdded(Box::new(v))
    }
}

impl vstd::std_specs::convert::FromSpecImpl<RealtimeServerEventResponseOutputItemAdded> for RealtimeServerEvent {
    open spec fn obeys_from_spec() -> bool {
        true
    }

    open spec fn from_spec(v: RealtimeServerEventResponseOutputItemAdded) -> Self {
        RealtimeServerEvent::ResponseOutputItemAdded(Box::new(v))
    }
}

impl From<RealtimeServerEventResponseOutputItemDone> for RealtimeServerEvent {
    fn from(v: RealtimeServerEventResponseOutputItemDone) -> (r: Self) {
        RealtimeServerEvent::ResponseOutputItemDone(Box::new(v))
    }
}

impl vstd::std_specs::convert::FromSpecImpl<RealtimeServerEventResponseOutputItemDone> for RealtimeServerEvent {
    open spec fn obeys_from_spec() -> bool {
        true
    }

    open spec fn from_spec(v: RealtimeServerEventResponseOutputItemDone) -> Self {
        RealtimeServerEvent::ResponseOutputItemDone(Box::new(v))
    }
}

impl From<RealtimeServerEventResponseTextDelta> for RealtimeServerEvent {
    fn from(v: RealtimeServerEventResponseTextDelta) -> (r: Self) {
        RealtimeServerEvent::ResponseTextDelta(Box::new(v))
    }
}

impl vstd::std_specs::convert::FromSpecImpl<RealtimeServerEventResponseTextDelta> for RealtimeServerEvent {
    open spec fn obeys_from_spec() -> bool {
        true
    }

    open spec fn from_spec(v: RealtimeServerEventResponseTextDelta) -> Self {
        RealtimeServerEvent::ResponseTextDelta(Box::new(v))
    }
}

impl From<RealtimeServerEventResponseTextDone> for RealtimeServerEvent {
    fn from(v: RealtimeServerEventResponseTextDone) -> (r: Self) {
        RealtimeServerEvent::ResponseTextDone(Box::new(v))
    }
}

impl vstd::std_specs::convert::FromSpecImpl<RealtimeServerEventResponseTextDone> for RealtimeServerEvent {
    open spec fn obeys_from_spec() -> bool {
        true
    }

    open spec fn from_spec(v: RealtimeServerEventResponseTextDone) -> Self {
        RealtimeServerEvent::ResponseTextDone(Box::new(v))
    }
}

impl From<RealtimeServerEventSessionCreated> for RealtimeServerEvent {
    fn from(v: RealtimeServerEventSessionCreated) -> (r: Self) {
        RealtimeServerEvent::SessionCreated(Box::new(v))
    }
}

impl vstd::std_specs::convert::FromSpecImpl<RealtimeServerEventSessionCreated> for RealtimeServerEvent {
    open spec fn obeys_from_spec() -> bool {
        true
    }

    open spec fn from_spec(v: RealtimeServerEventSessionCreated) -> Self {
        RealtimeServerEvent::SessionCreated(Box::new(v))
    }
}

impl From<RealtimeServerEventSessionUpdated> for RealtimeServerEvent {
    fn from(v: RealtimeServerEventSessionUpdated) -> (r: Self) {
        RealtimeServerEvent::SessionUpdated(Box::new(v))
    }
}

impl vstd::std_specs::convert::FromSpecImpl<RealtimeServerEventSessionUpdated> for RealtimeServerEvent {
    open spec fn obeys_from_spec() -> bool {
        true
    }

    open spec fn from_spec(v: RealtimeServerEventSessionUpdated) -> Self {
        RealtimeServerEvent::SessionUpdated(Box::new(v))
    }
}

impl From<RealtimeServerEventOutputAudioBufferStarted> for RealtimeServerEvent {
    fn from(v: RealtimeServerEventOutputAudioBufferStarted) -> (r: Self) {
        RealtimeServerEvent::OutputAudioBufferStarted(Box::new(v))
    }
}

impl vstd::std_specs::convert::FromSpecImpl<RealtimeServerEventOutputAudioBufferStarted> for RealtimeServerEvent {
    open spec fn obeys_from_spec() -> bool {
        true
    }

    open spec fn from_spec(v: RealtimeServerEventOutputAudioBufferStarted) -> Self {
        RealtimeServerEvent::OutputAudioBufferStarted(Box::new(v))
    }
}

impl From<RealtimeServerEventOutputAudioBufferStopped> for RealtimeServerEvent {
    fn from(v: RealtimeServerEventOutputAudioBufferStopped) -> (r: Self) {
        RealtimeServerEvent::OutputAudioBufferStopped(Box::new(v))
    }
}

impl vstd::std_specs::convert::FromSpecImpl<RealtimeServerEventOutputAudioBufferStopped> for RealtimeServerEvent {
    open spec fn obeys_from_spec() -> bool {
        true
    }

    open spec fn from_spec(v: RealtimeServerEventOutputAudioBufferStopped) -> Self {
        RealtimeServerEvent::OutputAudioBufferStopped(Box::new(v))
    }
}

impl From<RealtimeServerEventOutputAudioBufferCleared> for RealtimeServerEvent {
    fn from(v: RealtimeServerEventOutputAudioBufferCleared) -> (r: Self) {
        RealtimeServerEvent::OutputAudioBufferCleared(Box::new(v))
    }
}

impl vstd::std_specs::convert::FromSpecImpl<RealtimeServerEventOutputAudioBufferCleared> for RealtimeServerEvent {
    open spec fn obeys_from_spec() -> bool {
        true
    }

    open spec fn from_spec(v: RealtimeServerEventOutputAudioBufferCleared) -> Self {
        RealtimeServerEvent::OutputAudioBufferCleared(Box::new(v))
    }
}

impl From<RealtimeServerEventConversationItemAdded> for RealtimeServerEvent {
    fn from(v: RealtimeServerEventConversationItemAdded) -> (r: Self) {
        RealtimeServerEvent::ConversationItemAdded(Box::new(v))
    }
}

impl vstd::std_specs::convert::FromSpecImpl<RealtimeServerEventConversationItemAdded> for RealtimeServerEvent {
    open spec fn obeys_from_spec() -> bool {
        true
    }

    open spec fn from_spec(v: RealtimeServerEventConversationItemAdded) -> Self {
        RealtimeServerEvent::ConversationItemAdded(Box::new(v))
    }
}

impl From<RealtimeServerEventConversationItemDone> for RealtimeServerEvent {
    fn from(v: RealtimeServerEventConversationItemDone) -> (r: Self) {
        RealtimeServerEvent::ConversationItemDone(Box::new(v))
    }
}

impl vstd::std_specs::convert::FromSpecImpl<RealtimeServerEventConversationItemDone> for RealtimeServerEvent {
    open spec fn obeys_from_spec() -> bool {
        true
    }

    open spec fn from_spec(v: RealtimeServerEventConversationItemDone) -> Self {
        RealtimeServerEvent::ConversationItemDone(Box::new(v))
    }
}

impl From<RealtimeServerEventInputAudioBufferTimeoutTriggered> for RealtimeServerEvent {
    fn from(v: RealtimeServerEventInputAudioBufferTimeoutTriggered) -> (r: Self) {
        RealtimeServerEvent::InputAudioBufferTimeoutTriggered(Box::new(v))
    }
}

impl vstd::std_specs::convert::FromSpecImpl<RealtimeServerEventInputAudioBufferTimeoutTriggered> for RealtimeServerEvent {
    open spec fn obeys_from_spec() -> bool {
        true
    }

    open spec fn from_spec(v: RealtimeServerEventInputAudioBufferTimeoutTriggered) -> Self {
        RealtimeServerEvent::InputAudioBufferTimeoutTriggered(Box::new(v))
    }
}

impl From<RealtimeServerEventConversationItemInputAudioTranscriptionSegment> for RealtimeServerEvent {
    fn from(v: RealtimeServerEventConversationItemInputAudioTranscriptionSegment) -> (r: Self) {
        RealtimeServerEvent::InputAudioTranscriptionSegment(Box::new(v))
    }
}

impl vstd::std_specs::convert::FromSpecImpl<RealtimeServerEventConversationItemInputAudioTranscriptionSegment> for RealtimeServerEvent {
    open spec fn obeys_from_spec() -> bool {
        true
    }

    open spec fn from_spec(v: RealtimeServerEventConversationItemInputAudioTranscriptionSegment) -> Self {
        RealtimeServerEvent::InputAudioTranscriptionSegment(Box::new(v))
    }
}

impl From<RealtimeServerEventMCPListToolsInProgress> for RealtimeServerEvent {
    fn from(v: RealtimeServerEventMCPListToolsInProgress) -> (r: Self) {
        RealtimeServerEvent::McpListToolsInProgress(Box::new(v))
    }
}

impl vstd::std_specs::convert::FromSpecImpl<RealtimeServerEventMCPListToolsInProgress> for RealtimeServerEvent {
    open spec fn obeys_from_spec() -> bool {
        true
    }

    open spec fn from_spec(v: RealtimeServerEventMCPListToolsInProgress) -> Self {
        RealtimeServerEvent::McpListToolsInProgress(Box::new(v))
    }
}

impl From<RealtimeServerEventMCPListToolsCompleted> for RealtimeServerEvent {
    fn from(v: RealtimeServerEventMCPListToolsCompleted) -> (r: Self) {
        RealtimeServerEvent::McpListToolsCompleted(Box::new(v))
    }
}

impl vstd::std_specs::convert::FromSpecImpl<RealtimeServerEventMCPListToolsCompleted> for RealtimeServerEvent {
    open spec fn obeys_from_spec() -> bool {
        true
    }

    open spec fn from_spec(v: RealtimeServerEventMCPListToolsCompleted) -> Self {
        RealtimeServerEvent::McpListToolsCompleted(Box::new(v))
    }
}

impl From<RealtimeServerEventMCPListToolsFailed> for RealtimeServerEvent {
    fn from(v: RealtimeServerEventMCPListToolsFailed) -> (r: Self) {
        RealtimeServerEvent::McpListToolsFailed(Box::new(v))
    }
}

impl vstd::std_specs::convert::FromSpecImpl<RealtimeServerEventMCPListToolsFailed> for RealtimeServerEvent {
    open spec fn obeys_from_spec() -> bool {
        true
    }

    open spec fn from_spec(v: RealtimeServerEventMCPListToolsFailed) -> Self {
        RealtimeServerEvent::McpListToolsFailed(Box::new(v))
    }
}

impl From<RealtimeServerEventResponseMCPCallArgumentsDelta> for RealtimeServerEvent {
    fn from(v: RealtimeServerEventResponseMCPCallArgumentsDelta) -> (r: Self) {
        RealtimeServerEvent::ResponseMcpCallArgumentsDelta(Box::new(v))
    }
}

impl vstd::std_specs::convert::FromSpecImpl<RealtimeServerEventResponseMCPCallArgumentsDelta> for RealtimeServerEvent {
    open spec fn obeys_from_spec() -> bool {
        true
    }

    open spec fn from_spec(v: RealtimeServerEventResponseMCPCallArgumentsDelta) -> Self {
        RealtimeServerEvent::ResponseMcpCallArgumentsDelta(Box::new(v))
    }
}

impl From<RealtimeServerEventResponseMCPCallArgumentsDone> for RealtimeServerEvent {
    fn from(v: RealtimeServerEventResponseMCPCallArgumentsDone) -> (r: Self) {
        RealtimeServerEvent::ResponseMcpCallArgumentsDone(Box::new(v))
    }
}

impl vstd::std_specs::convert::FromSpecImpl<RealtimeServerEventResponseMCPCallArgumentsDone> for RealtimeServerEvent {
    open spec fn obeys_from_spec() -> bool {
        true
    }

    open spec fn from_spec(v: RealtimeServerEventResponseMCPCallArgumentsDone) -> Self {
        RealtimeServerEvent::ResponseMcpCallArgumentsDone(Box::new(v))
    }
}

impl From<RealtimeServerEventResponseMCPCallInProgress> for RealtimeServerEvent {
    fn from(v: RealtimeServerEventResponseMCPCallInProgress) -> (r: Self) {
        RealtimeServerEvent::ResponseMcpCallInProgress(Box::new(v))
    }
}

impl vstd::std_specs::convert::FromSpecImpl<RealtimeServerEventResponseMCPCallInProgress> for RealtimeServerEvent {
    open spec fn obeys_from_spec() -> bool {
        true
    }

    open spec fn from_spec(v: RealtimeServerEventResponseMCPCallInProgress) -> Self {
        RealtimeServerEvent::ResponseMcpCallInProgress(Box::new(v))
    }
}

impl From<RealtimeServerEventResponseMCPCallCompleted> for RealtimeServerEvent {
    fn from(v: RealtimeServerEventResponseMCPCallCompleted) -> (r: Self) {
        RealtimeServerEvent::ResponseMcpCallCompleted(Box::new(v))
    }
}

impl vstd::std_specs::convert::FromSpecImpl<RealtimeServerEventResponseMCPCallCompleted> for RealtimeServerEvent {
    open spec fn obeys_from_spec() -> bool {
        true
    }

    open spec fn from_spec(v: RealtimeServerEventResponseMCPCallCompleted) -> Self {
        RealtimeServerEvent::ResponseMcpCallCompleted(Box::new(v))
    }
}

impl From<RealtimeServerEventResponseMCPCallFailed> for RealtimeServerEvent {
    fn from(v: RealtimeServerEventResponseMCPCallFailed) -> (r: Self) {
        RealtimeServerEvent::ResponseMcpCallFailed(Box::new(v))
    }
}

impl vstd::std_specs::convert::FromSpecImpl<RealtimeServerEventResponseMCPCallFailed> for RealtimeServerEvent {
    open spec fn obeys_from_spec() -> bool {
        true
    }

    open spec fn from_spec(v: RealtimeServerEventResponseMCPCallFailed) -> Self {
        RealtimeServerEvent::ResponseMcpCallFailed(Box::new(v))
    }
}

impl From<RealtimeServerEventError> for RealtimeTranslationServerEvent {
    fn from(v: RealtimeServerEventError) -> (r: Self) {
        RealtimeTranslationServerEvent::Error(Box::new(v))
    }
}

impl vstd::std_specs::convert::FromSpecImpl<RealtimeServerEventError> for RealtimeTranslationServerEvent {
    open spec fn obeys_from_spec() -> bool {
        true
    }

    open spec fn from_spec(v: RealtimeServerEventError) -> Self {
        RealtimeTranslationServerEvent::Error(Box::new(v))
    }
}

impl From<RealtimeTranslationServerEventSessionCreated> for RealtimeTranslationServerEvent {
    fn from(v: RealtimeTranslationServerEventSessionCreated) -> (r: Self) {
        RealtimeTranslationServerEvent::SessionCreated(Box::new(v))
    }
}

impl vstd::std_specs::convert::FromSpecImpl<RealtimeTranslationServerEventSessionCreated> for RealtimeTranslationServerEvent {
    open spec fn obeys_from_spec() -> bool {
        true
    }

    open spec fn from_spec(v: RealtimeTranslationServerEventSessionCreated) -> Self {
        RealtimeTranslationServerEvent::SessionCreated(Box::new(v))
    }
}

impl From<RealtimeTranslationServerEventSessionUpdated> for RealtimeTranslationServerEvent {
    fn from(v: RealtimeTranslationServerEventSessionUpdated) -> (r: Self) {
        RealtimeTranslationServerEvent::SessionUpdated(Box::new(v))
    }
}

impl vstd::std_specs::convert::FromSpecImpl<RealtimeTranslationServerEventSessionUpdated> for RealtimeTranslationServerEvent {
    open spec fn obeys_from_spec() -> bool {
        true
    }

    open spec fn from_spec(v: RealtimeTranslationServerEventSessionUpdated) -> Self {
        RealtimeTranslationServerEvent::SessionUpdated(Box::new(v))
    }
}

impl From<RealtimeTranslationServerEventSessionClosed> for RealtimeTranslationServerEvent {
    fn from(v: RealtimeTranslationServerEventSessionClosed) -> (r: Self) {
        RealtimeTranslationServerEvent::SessionClosed(Box::new(v))
    }
}

impl vstd::std_specs::convert::FromSpecImpl<RealtimeTranslationServerEventSessionClosed> for RealtimeTranslationServerEvent {
    open spec fn obeys_from_spec() -> bool {
        true
    }

    open spec fn from_spec(v: RealtimeTranslationServerEventSessionClosed) -> Self {
        RealtimeTranslationServerEvent::SessionClosed(Box::new(v))
    }
}

impl From<RealtimeTranslationServerEventSessionInputTranscriptDelta> for RealtimeTranslationServerEvent {
    fn from(v: RealtimeTranslationServerEventSessionInputTranscriptDelta) -> (r: Self) {
        RealtimeTranslationServerEvent::InputTranscriptDelta(Box::new(v))
    }
}

impl vstd::std_specs::convert::FromSpecImpl<RealtimeTranslationServerEventSessionInputTranscriptDelta> for RealtimeTranslationServerEvent {
    open spec fn obeys_from_spec() -> bool {
        true
    }

    open spec fn from_spec(v: RealtimeTranslationServerEventSessionInputTranscriptDelta) -> Self {
        RealtimeTranslationServerEvent::InputTranscriptDelta(Box::new(v))
    }
}

impl From<RealtimeTranslationServerEventSessionOutputTranscriptDelta> for RealtimeTranslationServerEvent {
    fn from(v: RealtimeTranslationServerEventSessionOutputTranscriptDelta) -> (r: Self) {
        RealtimeTranslationServerEvent::OutputTranscriptDelta(Box::new(v))
    }
}

impl vstd::std_specs::convert::FromSpecImpl<RealtimeTranslationServerEventSessionOutputTranscriptDelta> for RealtimeTranslationServerEvent {
    open spec fn obeys_from_spec() -> bool {
        true
    }

    open spec fn from_spec(v: RealtimeTranslationServerEventSessionOutputTranscriptDelta) -> Self {
        RealtimeTranslationServerEvent::OutputTranscriptDelta(Box::new(v))
    }
}

impl From<RealtimeTranslationServerEventSessionOutputAudioDelta> for RealtimeTranslationServerEvent {
    fn from(v: RealtimeTranslationServerEventSessionOutputAudioDelta) -> (r: Self) {
        RealtimeTranslationServerEvent::OutputAudioDelta(Box::new(v))
    }
}

impl vstd::std_specs::convert::FromSpecImpl<RealtimeTranslationServerEventSessionOutputAudioDelta> for RealtimeTranslationServerEvent {
    open spec fn obeys_from_spec() -> bool {
        true
    }

    open spec fn from_spec(v: RealtimeTranslationServerEventSessionOutputAudioDelta) -> Self {
        RealtimeTranslationServerEvent::OutputAudioDelta(Box::new(v))
    }
}

} // verus!
