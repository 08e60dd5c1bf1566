//! Client events of Realtime and translation sessions: their builders,
//! their routing by tag, and the `event_id` length limit.
use vstd::prelude::*;
use crate::json::{ExtraFields, Json};
use crate::realtime::{
    CreateRealtimeSessionConstraintError, RealtimeAudio, UnknownRealtimeObject, event_id_check,
    validate_omittable_event_id,
};
use crate::realtime_calls::RealtimeTranslationSessionUpdateRequest;
use crate::realtime_items::RealtimeConversationItem;
use crate::realtime_session::{RealtimeResponseCreateParams, RealtimeSessionConfig, session_config_check};
use crate::text::chars_eq;
use crate::wire::Omittable;

verus! {

/// Adds an item to the default conversation (`conversation.item.create`).
pub struct RealtimeClientEventConversationItemCreate {
    pub event_id: Omittable<String>,
    pub previous_item_id: Omittable<String>,
    pub item: RealtimeConversationItem,
    pub extra: ExtraFields,
}

impl RealtimeClientEventConversationItemCreate {
    /// Inserts `item` at the end.
    pub fn new(item: RealtimeConversationItem) -> (r: Self)
        ensures
            r.event_id is Omitted,
            r.previous_item_id is Omitted,
            r.item == item,
            r.extra@ == Seq::<(Seq<char>, Json)>::empty(),
    {
        RealtimeClientEventConversationItemCreate {
            event_id: Omittable::Omitted,
            previous_item_id: Omittable::Omitted,
            item,
            extra: ExtraFields::new(),
        }
    }

    /// Inserts after the item `previous_item_id`.
    pub fn after(self, previous_item_id: &str) -> (r: Self)
        ensures
            r.previous_item_id matches Omittable::Value(p) && p@ == previous_item_id@,
            r.event_id == self.event_id,
            r.item == self.item,
            r.extra@ == self.extra@,
    {
        RealtimeClientEventConversationItemCreate {
            event_id: self.event_id,
            previous_item_id: Omittable::Value(previous_item_id.to_owned()),
            item: self.item,
            extra: self.extra,
        }
    }

    /// Adds a caller-generated event id.
    pub fn with_event_id(self, event_id: &str) -> (r: Self)
        ensures
            r.event_id matches Omittable::Value(e) && e@ == event_id@,
            r.previous_item_id == self.previous_item_id,
            r.item == self.item,
            r.extra@ == self.extra@,
    {
        RealtimeClientEventConversationItemCreate {
            event_id: Omittable::Value(event_id.to_owned()),
            previous_item_id: self.previous_item_id,
            item: self.item,
            extra: self.extra,
        }
    }

    /// Checks that a present `event_id` has at most 512 characters.
    pub fn validate(&self) -> (r: Result<(), CreateRealtimeSessionConstraintError>)
        ensures
            r == event_id_check(self.event_id),
    {
        validate_omittable_event_id(&self.event_id)
    }

    /// Members not modelled here, kept as received.
    pub fn extra_fields(&self) -> (r: &ExtraFields)
        ensures
            r@ == self.extra@,
    {
        &self.extra
    }
}

/// Deletes one conversation item (`conversation.item.delete`).
#[derive(Clone, Debug)]
pub struct RealtimeClientEventConversationItemDelete {
    pub event_id: Omittable<String>,
    pub item_id: String,
    pub extra: ExtraFields,
}

impl RealtimeClientEventConversationItemDelete {
    /// Deletes the item `item_id`.
    pub fn new(item_id: &str) -> (r: Self)
        ensures
            r.event_id is Omitted,
            r.item_id@ == item_id@,
            r.extra@ == Seq::<(Seq<char>, Json)>::empty(),
    {
        RealtimeClientEventConversationItemDelete {
            event_id: Omittable::Omitted,
            item_id: item_id.to_owned(),
            extra: ExtraFields::new(),
        }
    }

    /// Adds a caller-generated event id.
    pub fn with_event_id(self, event_id: &str) -> (r: Self)
        ensures
            r.event_id matches Omittable::Value(e) && e@ == event_id@,
            r.item_id == self.item_id,
            r.extra@ == self.extra@,
    {
        RealtimeClientEventConversationItemDelete {
            event_id: Omittable::Value(event_id.to_owned()),
            item_id: self.item_id,
            extra: self.extra,
        }
    }

    /// Checks that a present `event_id` has at most 512 characters.
    pub fn validate(&self) -> (r: Result<(), CreateRealtimeSessionConstraintError>)
        ensures
            r == event_id_check(self.event_id),
    {
        validate_omittable_event_id(&self.event_id)
    }

    /// Members not modelled here, kept as received.
    pub fn extra_fields(&self) -> (r: &ExtraFields)
        ensures
            r@ == self.extra@,
    {
        &self.extra
    }
}

/// Retrieves one conversation item (`conversation.item.retrieve`).
#[derive(Clone, Debug)]
pub struct RealtimeClientEventConversationItemRetrieve {
    pub event_id: Omittable<String>,
    pub item_id: String,
    pub extra: ExtraFields,
}

impl RealtimeClientEventConversationItemRetrieve {
    /// Retrieves the item `item_id`.
    pub fn new(item_id: &str) -> (r: Self)
        ensures
            r.event_id is Omitted,
            r.item_id@ == item_id@,
            r.extra@ == Seq::<(Seq<char>, Json)>::empty(),
    {
        RealtimeClientEventConversationItemRetrieve {
            event_id: Omittable::Omitted,
            item_id: item_id.to_owned(),
            extra: ExtraFields::new(),
        }
    }

    /// Adds a caller-generated event id.
    pub fn with_event_id(self, event_id: &str) -> (r: Self)
        ensures
            r.event_id matches Omittable::Value(e) && e@ == event_id@,
            r.item_id == self.item_id,
            r.extra@ == self.extra@,
    {
        RealtimeClientEventConversationItemRetrieve {
            event_id: Omittable::Value(event_id.to_owned()),
            item_id: self.item_id,
            extra: self.extra,
        }
    }

    /// Checks that a present `event_id` has at most 512 characters.
    pub fn validate(&self) -> (r: Result<(), CreateRealtimeSessionConstraintError>)
        ensures
            r == event_id_check(self.event_id),
    {
        validate_omittable_event_id(&self.event_id)
    }

    /// Members not modelled here, kept as received.
    pub fn extra_fields(&self) -> (r: &ExtraFields)
        ensures
            r@ == self.extra@,
    {
        &self.extra
    }
}

/// Truncates assistant audio already played (`conversation.item.truncate`).
#[derive(Clone, Debug)]
pub struct RealtimeClientEventConversationItemTruncate {
    pub event_id: Omittable<String>,
    pub item_id: String,
    pub content_index: i64,
    pub audio_end_ms: i64,
    pub extra: ExtraFields,
}

impl RealtimeClientEventConversationItemTruncate {
    /// Truncates the audio of part `content_index` of `item_id` at `audio_end_ms`.
    pub fn new(item_id: &str, content_index: i64, audio_end_ms: i64) -> (r: Self)
        ensures
            r.event_id is Omitted,
            r.item_id@ == item_id@,
            r.content_index == content_index,
            r.audio_end_ms == audio_end_ms,
            r.extra@ == Seq::<(Seq<char>, Json)>::empty(),
    {
        RealtimeClientEventConversationItemTruncate {
            event_id: Omittable::Omitted,
            item_id: item_id.to_owned(),
            content_index,
            audio_end_ms,
            extra: ExtraFields::new(),
        }
    }

    /// Adds a caller-generated event id.
    pub fn with_event_id(self, event_id: &str) -> (r: Self)
        ensures
            r.event_id matches Omittable::Value(e) && e@ == event_id@,
            r.item_id == self.item_id,
            r.content_index == self.content_index,
            r.audio_end_ms == self.audio_end_ms,
            r.extra@ == self.extra@,
    {
        RealtimeClientEventConversationItemTruncate {
            event_id: Omittable::Value(event_id.to_owned()),
            item_id: self.item_id,
            content_index: self.content_index,
            audio_end_ms: self.audio_end_ms,
            extra: self.extra,
        }
    }

    /// Checks that a present `event_id` has at most 512 characters.
    pub fn validate(&self) -> (r: Result<(), CreateRealtimeSessionConstraintError>)
        ensures
            r == event_id_check(self.event_id),
    {
        validate_omittable_event_id(&self.event_id)
    }

    /// Members not modelled here, kept as received.
    pub fn extra_fields(&self) -> (r: &ExtraFields)
        ensures
            r@ == self.extra@,
    {
        &self.extra
    }
}

/// Appends audio to the input buffer (`input_audio_buffer.append`).
#[derive(Clone)]
pub struct RealtimeClientEventInputAudioBufferAppend {
    pub event_id: Omittable<String>,
    pub audio: RealtimeAudio,
    pub extra: ExtraFields,
}

impl RealtimeClientEventInputAudioBufferAppend {
    /// Appends the raw audio bytes `audio`.
    pub fn new(audio: Vec<u8>) -> (r: Self)
        ensures
            r.event_id is Omitted,
            r.audio@ == audio@,
            r.extra@ == Seq::<(Seq<char>, Json)>::empty(),
    {
        RealtimeClientEventInputAudioBufferAppend {
            event_id: Omittable::Omitted,
            audio: RealtimeAudio::new(audio),
            extra: ExtraFields::new(),
        }
    }

    /// Adds a caller-generated event id.
    pub fn with_event_id(self, event_id: &str) -> (r: Self)
        ensures
            r.event_id matches Omittable::Value(e) && e@ == event_id@,
            r.audio == self.audio,
            r.extra@ == self.extra@,
    {
        RealtimeClientEventInputAudioBufferAppend {
            event_id: Omittable::Value(event_id.to_owned()),
            audio: self.audio,
            extra: self.extra,
        }
    }

    /// Checks that a present `event_id` has at most 512 characters.
    pub fn validate(&self) -> (r: Result<(), CreateRealtimeSessionConstraintError>)
        ensures
            r == event_id_check(self.event_id),
    {
        validate_omittable_event_id(&self.event_id)
    }

    /// Members not modelled here, kept as received.
    pub fn extra_fields(&self) -> (r: &ExtraFields)
        ensures
            r@ == self.extra@,
    {
        &self.extra
    }
}

/// Clears the input audio buffer (`input_audio_buffer.clear`).
#[derive(Clone, Debug)]
pub struct RealtimeClientEventInputAudioBufferClear {
    pub event_id: Omittable<String>,
    pub extra: ExtraFields,
}

impl Default for RealtimeClientEventInputAudioBufferClear {
    fn default() -> (r: Self)
        ensures
            r.event_id is Omitted,
            r.extra@ == Seq::<(Seq<char>, Json)>::empty(),
    {
        RealtimeClientEventInputAudioBufferClear {
            event_id: Omittable::Omitted,
            extra: ExtraFields::new(),
        }
    }
}

impl RealtimeClientEventInputAudioBufferClear {
    /// Adds a caller-generated event id.
    pub fn with_event_id(self, event_id: &str) -> (r: Self)
        ensures
            r.event_id matches Omittable::Value(e) && e@ == event_id@,

            r.extra@ == self.extra@,
    {
        RealtimeClientEventInputAudioBufferClear {
            event_id: Omittable::Value(event_id.to_owned()),

            extra: self.extra,
        }
    }

    /// Checks that a present `event_id` has at most 512 characters.
    pub fn validate(&self) -> (r: Result<(), CreateRealtimeSessionConstraintError>)
        ensures
            r == event_id_check(self.event_id),
    {
        validate_omittable_event_id(&self.event_id)
    }

    /// Members not modelled here, kept as received.
    pub fn extra_fields(&self) -> (r: &ExtraFields)
        ensures
            r@ == self.extra@,
    {
        &self.extra
    }
}

/// Clears client-side playback audio (`output_audio_buffer.clear`); its `event_id` has no length limit.
#[derive(Clone, Debug)]
pub struct RealtimeClientEventOutputAudioBufferClear {
    pub event_id: Omittable<String>,
    pub extra: ExtraFields,
}

impl Default for RealtimeClientEventOutputAudioBufferClear {
    fn default() -> (r: Self)
        ensures
            r.event_id is Omitted,
            r.extra@ == Seq::<(Seq<char>, Json)>::empty(),
    {
        RealtimeClientEventOutputAudioBufferClear {
            event_id: Omittable::Omitted,
            extra: ExtraFields::new(),
        }
    }
}

impl RealtimeClientEventOutputAudioBufferClear {
    /// Adds a caller-generated event id.
    pub fn with_event_id(self, event_id: &str) -> (r: Self)
        ensures
            r.event_id matches Omittable::Value(e) && e@ == event_id@,

            r.extra@ == self.extra@,
    {
        RealtimeClientEventOutputAudioBufferClear {
            event_id: Omittable::Value(event_id.to_owned()),

            extra: self.extra,
        }
    }

    /// Members not modelled here, kept as received.
    pub fn extra_fields(&self) -> (r: &ExtraFields)
        ensures
            r@ == self.extra@,
    {
        &self.extra
    }
}

/// Commits the input audio buffer as an item (`input_audio_buffer.commit`).
#[derive(Clone, Debug)]
pub struct RealtimeClientEventInputAudioBufferCommit {
    pub event_id: Omittable<String>,
    pub extra: ExtraFields,
}

impl Default for RealtimeClientEventInputAudioBufferCommit {
    fn default() -> (r: Self)
        ensures
            r.event_id is Omitted,
            r.extra@ == Seq::<(Seq<char>, Json)>::empty(),
    {
        RealtimeClientEventInputAudioBufferCommit {
            event_id: Omittable::Omitted,
            extra: ExtraFields::new(),
        }
    }
}

impl RealtimeClientEventInputAudioBufferCommit {
    /// Adds a caller-generated event id.
    pub fn with_event_id(self, event_id: &str) -> (r: Self)
        ensures
            r.event_id matches Omittable::Value(e) && e@ == event_id@,

            r.extra@ == self.extra@,
    {
        RealtimeClientEventInputAudioBufferCommit {
            event_id: Omittable::Value(event_id.to_owned()),

            extra: self.extra,
        }
    }

    /// Checks that a present `event_id` has at most 512 characters.
    pub fn validate(&self) -> (r: Result<(), CreateRealtimeSessionConstraintError>)
        ensures
            r == event_id_check(self.event_id),
    {
        validate_omittable_event_id(&self.event_id)
    }

    /// Members not modelled here, kept as received.
    pub fn extra_fields(&self) -> (r: &ExtraFields)
        ensures
            r@ == self.extra@,
    {
        &self.extra
    }
}

/// Cancels an in-progress response (`response.cancel`).
#[derive(Clone, Debug)]
pub struct RealtimeClientEventResponseCancel {
    pub event_id: Omittable<String>,
    pub response_id: Omittable<String>,
    pub extra: ExtraFields,
}

impl Default for RealtimeClientEventResponseCancel {
    fn default() -> (r: Self)
        ensures
            r.event_id is Omitted,
            r.response_id is Omitted,
            r.extra@ == Seq::<(Seq<char>, Json)>::empty(),
    {
        RealtimeClientEventResponseCancel {
            event_id: Omittable::Omitted,
            response_id: Omittable::Omitted,
            extra: ExtraFields::new(),
        }
    }
}

impl RealtimeClientEventResponseCancel {
    /// Cancels the response `response_id` rather than the default one.
    pub fn for_response(response_id: &str) -> (r: Self)
        ensures
            r.event_id is Omitted,
            r.response_id matches Omittable::Value(x) && x@ == response_id@,
            r.extra@ == Seq::<(Seq<char>, Json)>::empty(),
    {
        RealtimeClientEventResponseCancel {
            event_id: Omittable::Omitted,
            response_id: Omittable::Value(response_id.to_owned()),
            extra: ExtraFields::new(),
        }
    }

    /// Adds a caller-generated event id.
    pub fn with_event_id(self, event_id: &str) -> (r: Self)
        ensures
            r.event_id matches Omittable::Value(e) && e@ == event_id@,
            r.response_id == self.response_id,
            r.extra@ == self.extra@,
    {
        RealtimeClientEventResponseCancel {
            event_id: Omittable::Value(event_id.to_owned()),
            response_id: self.response_id,
            extra: self.extra,
        }
    }

    /// Checks that a present `event_id` has at most 512 characters.
    pub fn validate(&self) -> (r: Result<(), CreateRealtimeSessionConstraintError>)
        ensures
            r == event_id_check(self.event_id),
    {
        validate_omittable_event_id(&self.event_id)
    }

    /// Members not modelled here, kept as received.
    pub fn extra_fields(&self) -> (r: &ExtraFields)
        ensures
            r@ == self.extra@,
    {
        &self.extra
    }
}

/// The tags of the client events of a Realtime session.
#[derive(Debug, Clone, Copy, PartialEq, Eq, Structural)]
pub enum RealtimeClientEventKind {
    ConversationItemCreate,
    ConversationItemDelete,
    ConversationItemRetrieve,
    ConversationItemTruncate,
    InputAudioBufferAppend,
    InputAudioBufferClear,
    OutputAudioBufferClear,
    InputAudioBufferCommit,
    ResponseCancel,
    ResponseCreate,
    SessionUpdate,
    /// A future event, kept whole.
    Unknown,
}

impl RealtimeClientEventKind {
    /// The kind a `type` tag selects.
    pub open spec fn of_tag(tag: Seq<char>) -> Self {
        if tag == "conversation.item.create"@ {
            RealtimeClientEventKind::ConversationItemCreate
        } else if tag == "conversation.item.delete"@ {
            RealtimeClientEventKind::ConversationItemDelete
        } else if tag == "conversation.item.retrieve"@ {
            RealtimeClientEventKind::ConversationItemRetrieve
        } else if tag == "conversation.item.truncate"@ {
            RealtimeClientEventKind::ConversationItemTruncate
        } else if tag == "input_audio_buffer.append"@ {
            RealtimeClientEventKind::InputAudioBufferAppend
        } else if tag == "input_audio_buffer.clear"@ {
            RealtimeClientEventKind::InputAudioBufferClear
        } else if tag == "output_audio_buffer.clear"@ {
            RealtimeClientEventKind::OutputAudioBufferClear
        } else if tag == "input_audio_buffer.commit"@ {
            RealtimeClientEventKind::InputAudioBufferCommit
        } else if tag == "response.cancel"@ {
            RealtimeClientEventKind::ResponseCancel
        } else if tag == "response.create"@ {
            RealtimeClientEventKind::ResponseCreate
        } else if tag == "session.update"@ {
            RealtimeClientEventKind::SessionUpdate
        } else {
            RealtimeClientEventKind::Unknown
        }
    }

    /// The kind a decoded event's `type` tag selects.
    pub fn from_tag(tag: &str) -> (r: Self)
        ensures
            r == Self::of_tag(tag@),
    {
        if chars_eq(tag, "conversation.item.create") {
            RealtimeClientEventKind::ConversationItemCreate
        } else if chars_eq(tag, "conversation.item.delete") {
            RealtimeClientEventKind::ConversationItemDelete
        } else if chars_eq(tag, "conversation.item.retrieve") {
            RealtimeClientEventKind::ConversationItemRetrieve
        } else if chars_eq(tag, "conversation.item.truncate") {
            RealtimeClientEventKind::ConversationItemTruncate
        } else if chars_eq(tag, "input_audio_buffer.append") {
            RealtimeClientEventKind::InputAudioBufferAppend
        } else if chars_eq(tag, "input_audio_buffer.clear") {
            RealtimeClientEventKind::InputAudioBufferClear
        } else if chars_eq(tag, "output_audio_buffer.clear") {
            RealtimeClientEventKind::OutputAudioBufferClear
        } else if chars_eq(tag, "input_audio_buffer.commit") {
            RealtimeClientEventKind::InputAudioBufferCommit
        } else if chars_eq(tag, "response.cancel") {
            RealtimeClientEventKind::ResponseCancel
        } else if chars_eq(tag, "response.create") {
            RealtimeClientEventKind::ResponseCreate
        } else if chars_eq(tag, "session.update") {
            RealtimeClientEventKind::SessionUpdate
        } else {
            RealtimeClientEventKind::Unknown
        }
    }
}

/// The outcome of a client event's limits: the `event_id` length of every
/// known event but `output_audio_buffer.clear`, then for `session.update`
/// the outcome of the nested session's own check.
pub open spec fn client_event_check(
    kind: RealtimeClientEventKind,
    event_id: Omittable<String>,
    session: Result<(), CreateRealtimeSessionConstraintError>,
) -> Result<(), CreateRealtimeSessionConstraintError> {
    match kind {
        RealtimeClientEventKind::OutputAudioBufferClear => Ok(()),
        RealtimeClientEventKind::Unknown => Ok(()),
        RealtimeClientEventKind::SessionUpdate => if event_id_check(event_id) is Err {
            event_id_check(event_id)
        } else {
            session
        },
        _ => event_id_check(event_id),
    }
}

/// Decides the limits of a client event of kind `kind`; `session` is the
/// outcome of the nested session's check for `session.update`.
pub fn validate_client_event_limits(
    kind: RealtimeClientEventKind,
    event_id: &Omittable<String>,
    session: Result<(), CreateRealtimeSessionConstraintError>,
) -> (r: Result<(), CreateRealtimeSessionConstraintError>)
    ensures
        r == client_event_check(kind, *event_id, session),
{
    match kind {
        RealtimeClientEventKind::OutputAudioBufferClear => Ok(()),
        RealtimeClientEventKind::Unknown => Ok(()),
        RealtimeClientEventKind::SessionUpdate => {
            let c = validate_omittable_event_id(event_id);
            if c.is_err() {
                c
            } else {
                session
            }
        },
        _ => validate_omittable_event_id(event_id),
    }
}

/// Starts a model response (`response.create`).
pub struct RealtimeClientEventResponseCreate {
    pub event_id: Omittable<String>,
    pub response: Omittable<RealtimeResponseCreateParams>,
    pub extra: ExtraFields,
}

impl Default for RealtimeClientEventResponseCreate {
    fn default() -> (r: Self)
        ensures
            r.event_id is Omitted,
            r.response is Omitted,
            r.extra@ == Seq::<(Seq<char>, Json)>::empty(),
    {
        RealtimeClientEventResponseCreate {
            event_id: Omittable::Omitted,
            response: Omittable::Omitted,
            extra: ExtraFields::new(),
        }
    }
}

impl RealtimeClientEventResponseCreate {
    /// A response with its own settings.
    pub fn with_response(response: RealtimeResponseCreateParams) -> (r: Self)
        ensures
            r.event_id is Omitted,
            r.response == Omittable::Value(response),
            r.extra@ == Seq::<(Seq<char>, Json)>::empty(),
    {
        RealtimeClientEventResponseCreate {
            event_id: Omittable::Omitted,
            response: Omittable::Value(response),
            extra: ExtraFields::new(),
        }
    }

    /// Adds a caller-generated event id.
    pub fn with_event_id(self, event_id: &str) -> (r: Self)
        ensures
            r.event_id matches Omittable::Value(e) && e@ == event_id@,
            r.response == self.response,
            r.extra@ == self.extra@,
    {
        RealtimeClientEventResponseCreate {
            event_id: Omittable::Value(event_id.to_owned()),
            response: self.response,
            extra: self.extra,
        }
    }

    /// Checks that a present `event_id` has at most 512 characters.
    pub fn validate(&self) -> (r: Result<(), CreateRealtimeSessionConstraintError>)
        ensures
            r == event_id_check(self.event_id),
    {
        validate_omittable_event_id(&self.event_id)
    }

    /// Members not modelled here, kept as received.
    pub fn extra_fields(&self) -> (r: &ExtraFields)
        ensures
            r@ == self.extra@,
    {
        &self.extra
    }
}

/// Updates a Realtime or transcription session (`session.update`).
#[derive(Clone, Debug)]
pub struct RealtimeClientEventSessionUpdate {
    pub event_id: Omittable<String>,
    pub session: RealtimeSessionConfig,
    pub extra: ExtraFields,
}

impl RealtimeClientEventSessionUpdate {
    /// An update with `session`.
    pub fn new(session: RealtimeSessionConfig) -> (r: Self)
        ensures
            r.event_id is Omitted,
            r.session == session,
            r.extra@ == Seq::<(Seq<char>, Json)>::empty(),
    {
        RealtimeClientEventSessionUpdate {
            event_id: Omittable::Omitted,
            session,
            extra: ExtraFields::new(),
        }
    }

    /// Adds a caller-generated event id.
    pub fn with_event_id(self, event_id: &str) -> (r: Self)
        ensures
            r.event_id matches Omittable::Value(e) && e@ == event_id@,
            r.session == self.session,
            r.extra@ == self.extra@,
    {
        RealtimeClientEventSessionUpdate {
            event_id: Omittable::Value(event_id.to_owned()),
            session: self.session,
            extra: self.extra,
        }
    }

    /// Checks the `event_id` length, then the session; the two outcomes are
    /// those of [`RealtimeSessionCreateRequest::validate`].
    ///
    /// [`RealtimeSessionCreateRequest::validate`]: crate::realtime_session::RealtimeSessionCreateRequest::validate
    pub fn validate(
        &self,
        output_speed_check: Result<(), CreateRealtimeSessionConstraintError>,
        retention_ratio_check: Result<(), CreateRealtimeSessionConstraintError>,
    ) -> (r: Result<(), CreateRealtimeSessionConstraintError>)
        ensures
            r == (if event_id_check(self.event_id) is Err {
                event_id_check(self.event_id)
            } else {
                session_config_check(self.session, output_speed_check, retention_ratio_check)
            }),
    {
        let c = validate_omittable_event_id(&self.event_id);
        if c.is_err() {
            c
        } else {
            self.session.validate(output_speed_check, retention_ratio_check)
        }
    }

    /// Members not modelled here, kept as received.
    pub fn extra_fields(&self) -> (r: &ExtraFields)
        ensures
            r@ == self.extra@,
    {
        &self.extra
    }
}

/// A client event of a Realtime session; an event of a `type` not
/// modelled here is kept whole.
pub enum RealtimeClientEvent {
    ConversationItemCreate(Box<RealtimeClientEventConversationItemCreate>),
    ConversationItemDelete(Box<RealtimeClientEventConversationItemDelete>),
    ConversationItemRetrieve(Box<RealtimeClientEventConversationItemRetrieve>),
    ConversationItemTruncate(Box<RealtimeClientEventConversationItemTruncate>),
    InputAudioBufferAppend(Box<RealtimeClientEventInputAudioBufferAppend>),
    InputAudioBufferClear(Box<RealtimeClientEventInputAudioBufferClear>),
    OutputAudioBufferClear(Box<RealtimeClientEventOutputAudioBufferClear>),
    InputAudioBufferCommit(Box<RealtimeClientEventInputAudioBufferCommit>),
    ResponseCancel(Box<RealtimeClientEventResponseCancel>),
    ResponseCreate(Box<RealtimeClientEventResponseCreate>),
    SessionUpdate(Box<RealtimeClientEventSessionUpdate>),
    Unknown(UnknownRealtimeObject),
}

/// The kind of a client event.
pub open spec fn client_event_kind_of(e: RealtimeClientEvent) -> RealtimeClientEventKind {
    match e {
        RealtimeClientEvent::ConversationItemCreate(_) => RealtimeClientEventKind::ConversationItemCreate,
        RealtimeClientEvent::ConversationItemDelete(_) => RealtimeClientEventKind::ConversationItemDelete,
        RealtimeClientEvent::ConversationItemRetrieve(_) => RealtimeClientEventKind::ConversationItemRetrieve,
        RealtimeClientEvent::ConversationItemTruncate(_) => RealtimeClientEventKind::ConversationItemTruncate,
        RealtimeClientEvent::InputAudioBufferAppend(_) => RealtimeClientEventKind::InputAudioBufferAppend,
        RealtimeClientEvent::InputAudioBufferClear(_) => RealtimeClientEventKind::InputAudioBufferClear,
        RealtimeClientEvent::OutputAudioBufferClear(_) => RealtimeClientEventKind::OutputAudioBufferClear,
        RealtimeClientEvent::InputAudioBufferCommit(_) => RealtimeClientEventKind::InputAudioBufferCommit,
        RealtimeClientEvent::ResponseCancel(_) => RealtimeClientEventKind::ResponseCancel,
        RealtimeClientEvent::ResponseCreate(_) => RealtimeClientEventKind::ResponseCreate,
        RealtimeClientEvent::SessionUpdate(_) => RealtimeClientEventKind::SessionUpdate,
        RealtimeClientEvent::Unknown(_) => RealtimeClientEventKind::Unknown,
    }
}

/// The `event_id` of a client event; `Omitted` for one kept whole.
pub open spec fn client_event_id_of(e: RealtimeClientEvent) -> Omittable<String> {
    match e {
        RealtimeClientEvent::ConversationItemCreate(v) => v.event_id,
        RealtimeClientEvent::ConversationItemDelete(v) => v.event_id,
        RealtimeClientEvent::ConversationItemRetrieve(v) => v.event_id,
        RealtimeClientEvent::ConversationItemTruncate(v) => v.event_id,
        RealtimeClientEvent::InputAudioBufferAppend(v) => v.event_id,
        RealtimeClientEvent::InputAudioBufferClear(v) => v.event_id,
        RealtimeClientEvent::OutputAudioBufferClear(v) => v.event_id,
        RealtimeClientEvent::InputAudioBufferCommit(v) => v.event_id,
        RealtimeClientEvent::ResponseCancel(v) => v.event_id,
        RealtimeClientEvent::ResponseCreate(v) => v.event_id,
        RealtimeClientEvent::SessionUpdate(v) => v.event_id,
        RealtimeClientEvent::Unknown(_) => Omittable::Omitted,
    }
}

/// The wire tag of a client event: fixed per kind, the received one for an
/// event kept whole.
pub open spec fn client_event_type_of(e: RealtimeClientEvent) -> Seq<char> {
    match e {
        RealtimeClientEvent::ConversationItemCreate(_) => "conversation.item.create"@,
        RealtimeClientEvent::ConversationItemDelete(_) => "conversation.item.delete"@,
        RealtimeClientEvent::ConversationItemRetrieve(_) => "conversation.item.retrieve"@,
        RealtimeClientEvent::ConversationItemTruncate(_) => "conversation.item.truncate"@,
        RealtimeClientEvent::InputAudioBufferAppend(_) => "input_audio_buffer.append"@,
        RealtimeClientEvent::InputAudioBufferClear(_) => "input_audio_buffer.clear"@,
        RealtimeClientEvent::OutputAudioBufferClear(_) => "output_audio_buffer.clear"@,
        RealtimeClientEvent::InputAudioBufferCommit(_) => "input_audio_buffer.commit"@,
        RealtimeClientEvent::ResponseCancel(_) => "response.cancel"@,
        RealtimeClientEvent::ResponseCreate(_) => "response.create"@,
        RealtimeClientEvent::SessionUpdate(_) => "session.update"@,
        RealtimeClientEvent::Unknown(u) => u@.0,
    }
}

/// The outcome of the limits of a client event (see [`client_event_check`]),
/// the session of a `session.update` judged by [`session_config_check`].
pub open spec fn client_event_validation(
    e: RealtimeClientEvent,
    output_speed_check: Result<(), CreateRealtimeSessionConstraintError>,
    retention_ratio_check: Result<(), CreateRealtimeSessionConstraintError>,
) -> Result<(), CreateRealtimeSessionConstraintError> {
    client_event_check(
        client_event_kind_of(e),
        client_event_id_of(e),
        match e {
            RealtimeClientEvent::SessionUpdate(v) => session_config_check(
                v.session,
                output_speed_check,
                retention_ratio_check,
            ),
            _ => Ok(()),
        },
    )
}

/// Each `type` tag of the Realtime client-event schema selects the variant
/// that the schema pairs with it; any other tag selects none, and the event
/// is kept whole.
pub proof fn law_client_event_tags_select_schema_variants(tag: Seq<char>)
    ensures
        tag == "conversation.item.create"@ ==> RealtimeClientEventKind::of_tag(tag) == RealtimeClientEventKind::ConversationItemCreate,
        tag == "conversation.item.delete"@ ==> RealtimeClientEventKind::of_tag(tag) == RealtimeClientEventKind::ConversationItemDelete,
        tag == "conversation.item.retrieve"@ ==> RealtimeClientEventKind::of_tag(tag) == RealtimeClientEventKind::ConversationItemRetrieve,
        tag == "conversation.item.truncate"@ ==> RealtimeClientEventKind::of_tag(tag) == RealtimeClientEventKind::ConversationItemTruncate,
        tag == "input_audio_buffer.append"@ ==> RealtimeClientEventKind::of_tag(tag) == RealtimeClientEventKind::InputAudioBufferAppend,
        tag == "input_audio_buffer.clear"@ ==> RealtimeClientEventKind::of_tag(tag) == RealtimeClientEventKind::InputAudioBufferClear,
        tag == "output_audio_buffer.clear"@ ==> RealtimeClientEventKind::of_tag(tag) == RealtimeClientEventKind::OutputAudioBufferClear,
        tag == "input_audio_buffer.commit"@ ==> RealtimeClientEventKind::of_tag(tag) == RealtimeClientEventKind::InputAudioBufferCommit,
        tag == "response.cancel"@ ==> RealtimeClientEventKind::of_tag(tag) == RealtimeClientEventKind::ResponseCancel,
        tag == "response.create"@ ==> RealtimeClientEventKind::of_tag(tag) == RealtimeClientEventKind::ResponseCreate,
        tag == "session.update"@ ==> RealtimeClientEventKind::of_tag(tag) == RealtimeClientEventKind::SessionUpdate,
        !(tag == "conversation.item.create"@ || tag == "conversation.item.delete"@ || tag == "conversation.item.retrieve"@ || tag == "conversation.item.truncate"@ || tag == "input_audio_buffer.append"@ || tag == "input_audio_buffer.clear"@ || tag == "output_audio_buffer.clear"@ || tag == "input_audio_buffer.commit"@ || tag == "response.cancel"@ || tag == "response.create"@ || tag == "session.update"@) ==> RealtimeClientEventKind::of_tag(tag) == RealtimeClientEventKind::Unknown,
{
    reveal_strlit("conversation.item.create");
    reveal_strlit("conversation.item.delete");
    reveal_strlit("conversation.item.retrieve");
    reveal_strlit("conversation.item.truncate");
    reveal_strlit("input_audio_buffer.append");
    reveal_strlit("input_audio_buffer.clear");
    reveal_strlit("output_audio_buffer.clear");
    reveal_strlit("input_audio_buffer.commit");
    reveal_strlit("response.cancel");
    reveal_strlit("response.create");
    reveal_strlit("session.update");
    assert("conversation.item.create"@.len() == 24);
    assert("conversation.item.delete"@.len() == 24);
    assert("conversation.item.retrieve"@.len() == 26);
    assert("conversation.item.truncate"@.len() == 26);
    assert("input_audio_buffer.append"@.len() == 25);
    assert("input_audio_buffer.clear"@.len() == 24);
    assert("output_audio_buffer.clear"@.len() == 25);
    assert("input_audio_buffer.commit"@.len() == 25);
    assert("response.cancel"@.len() == 15);
    assert("response.create"@.len() == 15);
    assert("session.update"@.len() == 14);
    assert("conversation.item.create"@[18] != "conversation.item.delete"@[18]);
    assert("conversation.item.create"@[0] != "input_audio_buffer.clear"@[0]);
    assert("conversation.item.delete"@[0] != "input_audio_buffer.clear"@[0]);
    assert("conversation.item.retrieve"@[18] != "conversation.item.truncate"@[18]);
    assert("input_audio_buffer.append"@[0] != "output_audio_buffer.clear"@[0]);
    assert("input_audio_buffer.append"@[19] != "input_audio_buffer.commit"@[19]);
    assert("output_audio_buffer.clear"@[0] != "input_audio_buffer.commit"@[0]);
    assert("response.cancel"@[10] != "response.create"@[10]);
}

/// Each client event reports the `type` tag that the schema pairs with its
/// variant.
pub proof fn law_client_events_report_schema_tags(e: RealtimeClientEvent)
    ensures
        e is ConversationItemCreate ==> client_event_type_of(e) == "conversation.item.create"@,
        e is ConversationItemDelete ==> client_event_type_of(e) == "conversation.item.delete"@,
        e is ConversationItemRetrieve ==> client_event_type_of(e) == "conversation.item.retrieve"@,
        e is ConversationItemTruncate ==> client_event_type_of(e) == "conversation.item.truncate"@,
        e is InputAudioBufferAppend ==> client_event_type_of(e) == "input_audio_buffer.append"@,
        e is InputAudioBufferClear ==> client_event_type_of(e) == "input_audio_buffer.clear"@,
        e is OutputAudioBufferClear ==> client_event_type_of(e) == "output_audio_buffer.clear"@,
        e is InputAudioBufferCommit ==> client_event_type_of(e) == "input_audio_buffer.commit"@,
        e is ResponseCancel ==> client_event_type_of(e) == "response.cancel"@,
        e is ResponseCreate ==> client_event_type_of(e) == "response.create"@,
        e is SessionUpdate ==> client_event_type_of(e) == "session.update"@,
{
}


/// Routing a client event by the tag it reports gives back its own kind.
pub proof fn law_client_event_tag_round_trip(e: RealtimeClientEvent)
    requires
        !(e is Unknown),
    ensures
        RealtimeClientEventKind::of_tag(client_event_type_of(e)) == client_event_kind_of(e),
{
    match e {
        RealtimeClientEvent::ConversationItemCreate(_) => {
            reveal_strlit("conversation.item.create");
        },
        RealtimeClientEvent::ConversationItemDelete(_) => {
            reveal_strlit("conversation.item.delete");
            reveal_strlit("conversation.item.create");
            assert("conversation.item.delete"@[18] != "conversation.item.create"@[18]);
        },
        RealtimeClientEvent::ConversationItemRetrieve(_) => {
            reveal_strlit("conversation.item.retrieve");
            reveal_strlit("conversation.item.create");
            assert("conversation.item.retrieve"@.len() != "conversation.item.create"@.len());
            reveal_strlit("conversation.item.delete");
            assert("conversation.item.retrieve"@.len() != "conversation.item.delete"@.len());
        },
        RealtimeClientEvent::ConversationItemTruncate(_) => {
            reveal_strlit("conversation.item.truncate");
            reveal_strlit("conversation.item.create");
            assert("conversation.item.truncate"@.len() != "conversation.item.create"@.len());
            reveal_strlit("conversation.item.delete");
            assert("conversation.item.truncate"@.len() != "conversation.item.delete"@.len());
            reveal_strlit("conversation.item.retrieve");
            assert("conversation.item.truncate"@[18] != "conversation.item.retrieve"@[18]);
        },
        RealtimeClientEvent::InputAudioBufferAppend(_) => {
            reveal_strlit("input_audio_buffer.append");
            reveal_strlit("conversation.item.create");
            assert("input_audio_buffer.append"@.len() != "conversation.item.create"@.len());
            reveal_strlit("conversation.item.delete");
            assert("input_audio_buffer.append"@.len() != "conversation.item.delete"@.len());
            reveal_strlit("conversation.item.retrieve");
            assert("input_audio_buffer.append"@.len() != "conversation.item.retrieve"@.len());
            reveal_strlit("conversation.item.truncate");
            assert("input_audio_buffer.append"@.len() != "conversation.item.truncate"@.len());
        },
        RealtimeClientEvent::InputAudioBufferClear(_) => {
            reveal_strlit("input_audio_buffer.clear");
            reveal_strlit("conversation.item.create");
            assert("input_audio_buffer.clear"@[0] != "conversation.item.create"@[0]);
            reveal_strlit("conversation.item.delete");
            assert("input_audio_buffer.clear"@[0] != "conversation.item.delete"@[0]);
            reveal_strlit("conversation.item.retrieve");
            assert("input_audio_buffer.clear"@.len() != "conversation.item.retrieve"@.len());
            reveal_strlit("conversation.item.truncate");
            assert("input_audio_buffer.clear"@.len() != "conversation.item.truncate"@.len());
            reveal_strlit("input_audio_buffer.append");
            assert("input_audio_buffer.clear"@.len() != "input_audio_buffer.append"@.len());
        },
        RealtimeClientEvent::OutputAudioBufferClear(_) => {
            reveal_strlit("output_audio_buffer.clear");
            reveal_strlit("conversation.item.create");
            assert("output_audio_buffer.clear"@.len() != "conversation.item.create"@.len());
            reveal_strlit("conversation.item.delete");
            assert("output_audio_buffer.clear"@.len() != "conversation.item.delete"@.len());
            reveal_strlit("conversation.item.retrieve");
            assert("output_audio_buffer.clear"@.len() != "conversation.item.retrieve"@.len());
            reveal_strlit("conversation.item.truncate");
            assert("output_audio_buffer.clear"@.len() != "conversation.item.truncate"@.len());
            reveal_strlit("input_audio_buffer.append");
            assert("output_audio_buffer.clear"@[0] != "input_audio_buffer.append"@[0]);
            reveal_strlit("input_audio_buffer.clear");
            assert("output_audio_buffer.clear"@.len() != "input_audio_buffer.clear"@.len());
        },
        RealtimeClientEvent::InputAudioBufferCommit(_) => {
            reveal_strlit("input_audio_buffer.commit");
            reveal_strlit("conversation.item.create");
            assert("input_audio_buffer.commit"@.len() != "conversation.item.create"@.len());
            reveal_strlit("conversation.item.delete");
            assert("input_audio_buffer.commit"@.len() != "conversation.item.delete"@.len());
            reveal_strlit("conversation.item.retrieve");
            assert("input_audio_buffer.commit"@.len() != "conversation.item.retrieve"@.len());
            reveal_strlit("conversation.item.truncate");
            assert("input_audio_buffer.commit"@.len() != "conversation.item.truncate"@.len());
            reveal_strlit("input_audio_buffer.append");
            assert("input_audio_buffer.commit"@[19] != "input_audio_buffer.append"@[19]);
            reveal_strlit("input_audio_buffer.clear");
            assert("input_audio_buffer.commit"@.len() != "input_audio_buffer.clear"@.len());
            reveal_strlit("output_audio_buffer.clear");
            assert("input_audio_buffer.commit"@[0] != "output_audio_buffer.clear"@[0]);
        },
        RealtimeClientEvent::ResponseCancel(_) => {
            reveal_strlit("response.cancel");
            reveal_strlit("conversation.item.create");
            assert("response.cancel"@.len() != "conversation.item.create"@.len());
            reveal_strlit("conversation.item.delete");
            assert("response.cancel"@.len() != "conversation.item.delete"@.len());
            reveal_strlit("conversation.item.retrieve");
            assert("response.cancel"@.len() != "conversation.item.retrieve"@.len());
            reveal_strlit("conversation.item.truncate");
            assert("response.cancel"@.len() != "conversation.item.truncate"@.len());
            reveal_strlit("input_audio_buffer.append");
            assert("response.cancel"@.len() != "input_audio_buffer.append"@.len());
            reveal_strlit("input_audio_buffer.clear");
            assert("response.cancel"@.len() != "input_audio_buffer.clear"@.len());
            reveal_strlit("output_audio_buffer.clear");
            assert("response.cancel"@.len() != "output_audio_buffer.clear"@.len());
            reveal_strlit("input_audio_buffer.commit");
            assert("response.cancel"@.len() != "input_audio_buffer.commit"@.len());
        },
        RealtimeClientEvent::ResponseCreate(_) => {
            reveal_strlit("response.create");
            reveal_strlit("conversation.item.create");
            assert("response.create"@.len() != "conversation.item.create"@.len());
            reveal_strlit("conversation.item.delete");
            assert("response.create"@.len() != "conversation.item.delete"@.len());
            reveal_strlit("conversation.item.retrieve");
            assert("response.create"@.len() != "conversation.item.retrieve"@.len());
            reveal_strlit("conversation.item.truncate");
            assert("response.create"@.len() != "conversation.item.truncate"@.len());
            reveal_strlit("input_audio_buffer.append");
            assert("response.create"@.len() != "input_audio_buffer.append"@.len());
            reveal_strlit("input_audio_buffer.clear");
            assert("response.create"@.len() != "input_audio_buffer.clear"@.len());
            reveal_strlit("output_audio_buffer.clear");
            assert("response.create"@.len() != "output_audio_buffer.clear"@.len());
            reveal_strlit("input_audio_buffer.commit");
            assert("response.create"@.len() != "input_audio_buffer.commit"@.len());
            reveal_strlit("response.cancel");
            assert("response.create"@[10] != "response.cancel"@[10]);
        },
        RealtimeClientEvent::SessionUpdate(_) => {
            reveal_strlit("session.update");
            reveal_strlit("conversation.item.create");
            assert("session.update"@.len() != "conversation.item.create"@.len());
            reveal_strlit("conversation.item.delete");
            assert("session.update"@.len() != "conversation.item.delete"@.len());
            reveal_strlit("conversation.item.retrieve");
            assert("session.update"@.len() != "conversation.item.retrieve"@.len());
            reveal_strlit("conversation.item.truncate");
            assert("session.update"@.len() != "conversation.item.truncate"@.len());
            reveal_strlit("input_audio_buffer.append");
            assert("session.update"@.len() != "input_audio_buffer.append"@.len());
            reveal_strlit("input_audio_buffer.clear");
            assert("session.update"@.len() != "input_audio_buffer.clear"@.len());
            reveal_strlit("output_audio_buffer.clear");
            assert("session.update"@.len() != "output_audio_buffer.clear"@.len());
            reveal_strlit("input_audio_buffer.commit");
            assert("session.update"@.len() != "input_audio_buffer.commit"@.len());
            reveal_strlit("response.cancel");
            assert("session.update"@.len() != "response.cancel"@.len());
            reveal_strlit("response.create");
            assert("session.update"@.len() != "response.create"@.len());
        },
        RealtimeClientEvent::Unknown(_) => {},
    }
}

impl RealtimeClientEvent {
    /// The wire tag of the event.
    pub fn event_type(&self) -> (r: &str)
        ensures
            r@ == client_event_type_of(*self),
    {
        match self {
            RealtimeClientEvent::ConversationItemCreate(_) => "conversation.item.create",
            RealtimeClientEvent::ConversationItemDelete(_) => "conversation.item.delete",
            RealtimeClientEvent::ConversationItemRetrieve(_) => "conversation.item.retrieve",
            RealtimeClientEvent::ConversationItemTruncate(_) => "conversation.item.truncate",
            RealtimeClientEvent::InputAudioBufferAppend(_) => "input_audio_buffer.append",
            RealtimeClientEvent::InputAudioBufferClear(_) => "input_audio_buffer.clear",
            RealtimeClientEvent::OutputAudioBufferClear(_) => "output_audio_buffer.clear",
            RealtimeClientEvent::InputAudioBufferCommit(_) => "input_audio_buffer.commit",
            RealtimeClientEvent::ResponseCancel(_) => "response.cancel",
            RealtimeClientEvent::ResponseCreate(_) => "response.create",
            RealtimeClientEvent::SessionUpdate(_) => "session.update",
            RealtimeClientEvent::Unknown(u) => u.discriminator(),
        }
    }

    /// Checks the `event_id` length of every known event but
    /// `output_audio_buffer.clear`, and the session of a `session.update`;
    /// the two outcomes are those of
    /// [`RealtimeSessionCreateRequest::validate`].
    ///
    /// [`RealtimeSessionCreateRequest::validate`]: crate::realtime_session::RealtimeSessionCreateRequest::validate
    pub fn validate(
        &self,
        output_speed_check: Result<(), CreateRealtimeSessionConstraintError>,
        retention_ratio_check: Result<(), CreateRealtimeSessionConstraintError>,
    ) -> (r: Result<(), CreateRealtimeSessionConstraintError>)
        ensures
            r == client_event_validation(*self, output_speed_check, retention_ratio_check),
    {
        let omitted: Omittable<String> = Omittable::Omitted;
        let (kind, event_id) = match self {
            RealtimeClientEvent::ConversationItemCreate(v) => (RealtimeClientEventKind::ConversationItemCreate, &v.event_id),
            RealtimeClientEvent::ConversationItemDelete(v) => (RealtimeClientEventKind::ConversationItemDelete, &v.event_id),
            RealtimeClientEvent::ConversationItemRetrieve(v) => (RealtimeClientEventKind::ConversationItemRetrieve, &v.event_id),
            RealtimeClientEvent::ConversationItemTruncate(v) => (RealtimeClientEventKind::ConversationItemTruncate, &v.event_id),
            RealtimeClientEvent::InputAudioBufferAppend(v) => (RealtimeClientEventKind::InputAudioBufferAppend, &v.event_id),
            RealtimeClientEvent::InputAudioBufferClear(v) => (RealtimeClientEventKind::InputAudioBufferClear, &v.event_id),
            RealtimeClientEvent::OutputAudioBufferClear(v) => (RealtimeClientEventKind::OutputAudioBufferClear, &v.event_id),
            RealtimeClientEvent::InputAudioBufferCommit(v) => (RealtimeClientEventKind::InputAudioBufferCommit, &v.event_id),
            RealtimeClientEvent::ResponseCancel(v) => (RealtimeClientEventKind::ResponseCancel, &v.event_id),
            RealtimeClientEvent::ResponseCreate(v) => (RealtimeClientEventKind::ResponseCreate, &v.event_id),
            RealtimeClientEvent::SessionUpdate(v) => (RealtimeClientEventKind::SessionUpdate, &v.event_id),
            RealtimeClientEvent::Unknown(_) => (RealtimeClientEventKind::Unknown, &omitted),
        };
        let session = match self {
            RealtimeClientEvent::SessionUpdate(v) => v.session.validate(output_speed_check, retention_ratio_check),
            _ => Ok(()),
        };
        validate_client_event_limits(kind, event_id, session)
    }
}

/// Updates a translation session (`session.update`).
#[derive(Clone, Debug)]
pub struct RealtimeTranslationClientEventSessionUpdate {
    pub event_id: Omittable<String>,
    pub session: RealtimeTranslationSessionUpdateRequest,
    pub extra: ExtraFields,
}

impl RealtimeTranslationClientEventSessionUpdate {
    /// An update with `session`.
    pub fn new(session: RealtimeTranslationSessionUpdateRequest) -> (r: Self)
        ensures
            r.event_id is Omitted,
            r.session == session,
            r.extra@ == Seq::<(Seq<char>, Json)>::empty(),
    {
        RealtimeTranslationClientEventSessionUpdate {
            event_id: Omittable::Omitted,
            session,
            extra: ExtraFields::new(),
        }
    }

    /// Adds a caller-generated event id.
    pub fn with_event_id(self, event_id: &str) -> (r: Self)
        ensures
            r.event_id matches Omittable::Value(e) && e@ == event_id@,
            r.session == self.session,
            r.extra@ == self.extra@,
    {
        RealtimeTranslationClientEventSessionUpdate {
            event_id: Omittable::Value(event_id.to_owned()),
            session: self.session,
            extra: self.extra,
        }
    }

    /// Checks that a present `event_id` has at most 512 characters.
    pub fn validate(&self) -> (r: Result<(), CreateRealtimeSessionConstraintError>)
        ensures
            r == event_id_check(self.event_id),
    {
        validate_omittable_event_id(&self.event_id)
    }

    /// Members not modelled here, kept as received.
    pub fn extra_fields(&self) -> (r: &ExtraFields)
        ensures
            r@ == self.extra@,
    {
        &self.extra
    }
}

/// Appends PCM16 audio to a translation session (`session.input_audio_buffer.append`).
#[derive(Clone)]
pub struct RealtimeTranslationClientEventInputAudioBufferAppend {
    pub event_id: Omittable<String>,
    pub audio: RealtimeAudio,
    pub extra: ExtraFields,
}

impl RealtimeTranslationClientEventInputAudioBufferAppend {
    /// Appends the raw audio bytes `audio`.
    pub fn new(audio: Vec<u8>) -> (r: Self)
        ensures
            r.event_id is Omitted,
            r.audio@ == audio@,
            r.extra@ == Seq::<(Seq<char>, Json)>::empty(),
    {
        RealtimeTranslationClientEventInputAudioBufferAppend {
            event_id: Omittable::Omitted,
            audio: RealtimeAudio::new(audio),
            extra: ExtraFields::new(),
        }
    }

    /// Adds a caller-generated event id.
    pub fn with_event_id(self, event_id: &str) -> (r: Self)
        ensures
            r.event_id matches Omittable::Value(e) && e@ == event_id@,
            r.audio == self.audio,
            r.extra@ == self.extra@,
    {
        RealtimeTranslationClientEventInputAudioBufferAppend {
            event_id: Omittable::Value(event_id.to_owned()),
            audio: self.audio,
            extra: self.extra,
        }
    }

    /// Checks that a present `event_id` has at most 512 characters.
    pub fn validate(&self) -> (r: Result<(), CreateRealtimeSessionConstraintError>)
        ensures
            r == event_id_check(self.event_id),
    {
        validate_omittable_event_id(&self.event_id)
    }

    /// Members not modelled here, kept as received.
    pub fn extra_fields(&self) -> (r: &ExtraFields)
        ensures
            r@ == self.extra@,
    {
        &self.extra
    }
}

/// Closes a translation session (`session.close`).
#[derive(Clone, Debug)]
pub struct RealtimeTranslationClientEventSessionClose {
    pub event_id: Omittable<String>,
    pub extra: ExtraFields,
}

impl Default for RealtimeTranslationClientEventSessionClose {
    fn default() -> (r: Self)
        ensures
            r.event_id is Omitted,
            r.extra@ == Seq::<(Seq<char>, Json)>::empty(),
    {
        RealtimeTranslationClientEventSessionClose {
            event_id: Omittable::Omitted,
            extra: ExtraFields::new(),
        }
    }
}

impl RealtimeTranslationClientEventSessionClose {
    /// Adds a caller-generated event id.
    pub fn with_event_id(self, event_id: &str) -> (r: Self)
        ensures
            r.event_id matches Omittable::Value(e) && e@ == event_id@,

            r.extra@ == self.extra@,
    {
        RealtimeTranslationClientEventSessionClose {
            event_id: Omittable::Value(event_id.to_owned()),

            extra: self.extra,
        }
    }

    /// Checks that a present `event_id` has at most 512 characters.
    pub fn validate(&self) -> (r: Result<(), CreateRealtimeSessionConstraintError>)
        ensures
            r == event_id_check(self.event_id),
    {
        validate_omittable_event_id(&self.event_id)
    }

    /// Members not modelled here, kept as received.
    pub fn extra_fields(&self) -> (r: &ExtraFields)
        ensures
            r@ == self.extra@,
    {
        &self.extra
    }
}

/// The events a translation session accepts.
#[derive(Clone)]
pub enum RealtimeTranslationClientEvent {
    SessionUpdate(RealtimeTranslationClientEventSessionUpdate),
    InputAudioBufferAppend(RealtimeTranslationClientEventInputAudioBufferAppend),
    SessionClose(RealtimeTranslationClientEventSessionClose),
    /// A future event, kept whole.
    Unknown(UnknownRealtimeObject),
}

/// Each translation client event reports the `type` tag that the schema
/// pairs with its variant.
pub proof fn law_translation_client_events_report_schema_tags(e: RealtimeTranslationClientEvent)
    ensures
        e is SessionUpdate ==> e.tag() == "session.update"@,
        e is InputAudioBufferAppend ==> e.tag() == "session.input_audio_buffer.append"@,
        e is SessionClose ==> e.tag() == "session.close"@,
{
}


impl RealtimeTranslationClientEvent {
    /// The `type` tag of an event.
    pub open spec fn tag(&self) -> Seq<char> {
        match self {
            RealtimeTranslationClientEvent::SessionUpdate(_) => "session.update"@,
            RealtimeTranslationClientEvent::InputAudioBufferAppend(_) => "session.input_audio_buffer.append"@,
            RealtimeTranslationClientEvent::SessionClose(_) => "session.close"@,
            RealtimeTranslationClientEvent::Unknown(u) => u@.0,
        }
    }

    /// The exact event tag.
    pub fn event_type(&self) -> (r: &str)
        ensures
            r@ == self.tag(),
    {
        match self {
            RealtimeTranslationClientEvent::SessionUpdate(_) => "session.update",
            RealtimeTranslationClientEvent::InputAudioBufferAppend(_) => "session.input_audio_buffer.append",
            RealtimeTranslationClientEvent::SessionClose(_) => "session.close",
            RealtimeTranslationClientEvent::Unknown(u) => u.discriminator(),
        }
    }

    /// Checks the `event_id` length of a known event; a future event passes.
    pub fn validate(&self) -> (r: Result<(), CreateRealtimeSessionConstraintError>)
        ensures
            r == match self {
                RealtimeTranslationClientEvent::SessionUpdate(e) => event_id_check(e.event_id),
                RealtimeTranslationClientEvent::InputAudioBufferAppend(e) => event_id_check(e.event_id),
                RealtimeTranslationClientEvent::SessionClose(e) => event_id_check(e.event_id),
                RealtimeTranslationClientEvent::Unknown(_) => Ok(()),
            },
    {
        match self {
            RealtimeTranslationClientEvent::SessionUpdate(e) => validate_omittable_event_id(&e.event_id),
            RealtimeTranslationClientEvent::InputAudioBufferAppend(e) => validate_omittable_event_id(&e.event_id),
            RealtimeTranslationClientEvent::SessionClose(e) => validate_omittable_event_id(&e.event_id),
            RealtimeTranslationClientEvent::Unknown(_) => Ok(()),
        }
    }
}

/// Schema names of the client events of a Realtime session.
pub const REALTIME_CLIENT_EVENT_BRANCHES: [&'static str; 11] = [
    "RealtimeClientEventConversationItemCreate",
    "RealtimeClientEventConversationItemDelete",
    "RealtimeClientEventConversationItemRetrieve",
    "RealtimeClientEventConversationItemTruncate",
    "RealtimeClientEventInputAudioBufferAppend",
    "RealtimeClientEventInputAudioBufferClear",
    "RealtimeClientEventInputAudioBufferCommit",
    "RealtimeClientEventOutputAudioBufferClear",
    "RealtimeClientEventResponseCancel",
    "RealtimeClientEventResponseCreate",
    "RealtimeClientEventSessionUpdate",
];

/// Wire tags of the client events of a Realtime session.
pub const REALTIME_CLIENT_EVENT_TAGS: [&'static str; 11] = [
    "conversation.item.create",
    "conversation.item.delete",
    "conversation.item.retrieve",
    "conversation.item.truncate",
    "input_audio_buffer.append",
    "input_audio_buffer.clear",
    "input_audio_buffer.commit",
    "output_audio_buffer.clear",
    "response.cancel",
    "response.create",
    "session.update",
];

/// Schema names of the client events of a translation session.
pub const REALTIME_TRANSLATION_CLIENT_EVENT_BRANCHES: [&'static str; 3] = [
    "RealtimeTranslationClientEventInputAudioBufferAppend",
    "RealtimeTranslationClientEventSessionClose",
    "RealtimeTranslationClientEventSessionUpdate",
];

/// Wire tags of the client events of a translation session.
pub const REALTIME_TRANSLATION_CLIENT_EVENT_TAGS: [&'static str; 3] = [
    "session.close",
    "session.input_audio_buffer.append",
    "session.update",
];

impl From<RealtimeClientEventConversationItemCreate> for RealtimeClientEvent {
    fn from(v: RealtimeClientEventConversationItemCreate) -> (r: Self) {
        RealtimeClientEvent::ConversationItemCreate(Box::new(v))
    }
}

impl vstd::std_specs::convert::FromSpecImpl<RealtimeClientEventConversationItemCreate> for RealtimeClientEvent {
    open spec fn obeys_from_spec() -> bool {
        true
    }

    open spec fn from_spec(v: RealtimeClientEventConversationItemCreate) -> Self {
        RealtimeClientEvent::ConversationItemCreate(Box::new(v))
    }
}

impl From<RealtimeClientEventConversationItemDelete> for RealtimeClientEvent {
    fn from(v: RealtimeClientEventConversationItemDelete) -> (r: Self) {
        RealtimeClientEvent::ConversationItemDelete(Box::new(v))
    }
}

impl vstd::std_specs::convert::FromSpecImpl<RealtimeClientEventConversationItemDelete> for RealtimeClientEvent {
    open spec fn obeys_from_spec() -> bool {
        true
    }

    open spec fn from_spec(v: RealtimeClientEventConversationItemDelete) -> Self {
        RealtimeClientEvent::ConversationItemDelete(Box::new(v))
    }
}

impl From<RealtimeClientEventConversationItemRetrieve> for RealtimeClientEvent {
    fn from(v: RealtimeClientEventConversationItemRetrieve) -> (r: Self) {
        RealtimeClientEvent::ConversationItemRetrieve(Box::new(v))
    }
}

impl vstd::std_specs::convert::FromSpecImpl<RealtimeClientEventConversationItemRetrieve> for RealtimeClientEvent {
    open spec fn obeys_from_spec() -> bool {
        true
    }

    open spec fn from_spec(v: RealtimeClientEventConversationItemRetrieve) -> Self {
        RealtimeClientEvent::ConversationItemRetrieve(Box::new(v))
    }
}

impl From<RealtimeClientEventConversationItemTruncate> for RealtimeClientEvent {
    fn from(v: RealtimeClientEventConversationItemTruncate) -> (r: Self) {
        RealtimeClientEvent::ConversationItemTruncate(Box::new(v))
    }
}

impl vstd::std_specs::convert::FromSpecImpl<RealtimeClientEventConversationItemTruncate> for RealtimeClientEvent {
    open spec fn obeys_from_spec() -> bool {
        true
    }

    open spec fn from_spec(v: RealtimeClientEventConversationItemTruncate) -> Self {
        RealtimeClientEvent::ConversationItemTruncate(Box::new(v))
    }
}

impl From<RealtimeClientEventInputAudioBufferAppend> for RealtimeClientEvent {
    fn from(v: RealtimeClientEventInputAudioBufferAppend) -> (r: Self) {
        RealtimeClientEvent::InputAudioBufferAppend(Box::new(v))
    }
}

impl vstd::std_specs::convert::FromSpecImpl<RealtimeClientEventInputAudioBufferAppend> for RealtimeClientEvent {
    open spec fn obeys_from_spec() -> bool {
        true
    }

    open spec fn from_spec(v: RealtimeClientEventInputAudioBufferAppend) -> Self {
        RealtimeClientEvent::InputAudioBufferAppend(Box::new(v))
    }
}

impl From<RealtimeClientEventInputAudioBufferClear> for RealtimeClientEvent {
    fn from(v: RealtimeClientEventInputAudioBufferClear) -> (r: Self) {
        RealtimeClientEvent::InputAudioBufferClear(Box::new(v))
    }
}

impl vstd::std_specs::convert::FromSpecImpl<RealtimeClientEventInputAudioBufferClear> for RealtimeClientEvent {
    open spec fn obeys_from_spec() -> bool {
        true
    }

    open spec fn from_spec(v: RealtimeClientEventInputAudioBufferClear) -> Self {
        RealtimeClientEvent::InputAudioBufferClear(Box::new(v))
    }
}

impl From<RealtimeClientEventOutputAudioBufferClear> for RealtimeClientEvent {
    fn from(v: RealtimeClientEventOutputAudioBufferClear) -> (r: Self) {
        RealtimeClientEvent::OutputAudioBufferClear(Box::new(v))
    }
}

impl vstd::std_specs::convert::FromSpecImpl<RealtimeClientEventOutputAudioBufferClear> for RealtimeClientEvent {
    open spec fn obeys_from_spec() -> bool {
        true
    }

    open spec fn from_spec(v: RealtimeClientEventOutputAudioBufferClear) -> Self {
        RealtimeClientEvent::OutputAudioBufferClear(Box::new(v))
    }
}

impl From<RealtimeClientEventInputAudioBufferCommit> for RealtimeClientEvent {
    fn from(v: RealtimeClientEventInputAudioBufferCommit) -> (r: Self) {
        RealtimeClientEvent::InputAudioBufferCommit(Box::new(v))
    }
}

impl vstd::std_specs::convert::FromSpecImpl<RealtimeClientEventInputAudioBufferCommit> for RealtimeClientEvent {
    open spec fn obeys_from_spec() -> bool {
        true
    }

    open spec fn from_spec(v: RealtimeClientEventInputAudioBufferCommit) -> Self {
        RealtimeClientEvent::InputAudioBufferCommit(Box::new(v))
    }
}

impl From<RealtimeClientEventResponseCancel> for RealtimeClientEvent {
    fn from(v: RealtimeClientEventResponseCancel) -> (r: Self) {
        RealtimeClientEvent::ResponseCancel(Box::new(v))
    }
}

impl vstd::std_specs::convert::FromSpecImpl<RealtimeClientEventResponseCancel> for RealtimeClientEvent {
    open spec fn obeys_from_spec() -> bool {
        true
    }

    open spec fn from_spec(v: RealtimeClientEventResponseCancel) -> Self {
        RealtimeClientEvent::ResponseCancel(Box::new(v))
    }
}

impl From<RealtimeClientEventResponseCreate> for RealtimeClientEvent {
    fn from(v: RealtimeClientEventResponseCreate) -> (r: Self) {
        RealtimeClientEvent::ResponseCreate(Box::new(v))
    }
}

impl vstd::std_specs::convert::FromSpecImpl<RealtimeClientEventResponseCreate> for RealtimeClientEvent {
    open spec fn obeys_from_spec() -> bool {
        true
    }

    open spec fn from_spec(v: RealtimeClientEventResponseCreate) -> Self {
        RealtimeClientEvent::ResponseCreate(Box::new(v))
    }
}

impl From<RealtimeClientEventSessionUpdate> for RealtimeClientEvent {
    fn from(v: RealtimeClientEventSessionUpdate) -> (r: Self) {
        RealtimeClientEvent::SessionUpdate(Box::new(v))
    }
}

impl vstd::std_specs::convert::FromSpecImpl<RealtimeClientEventSessionUpdate> for RealtimeClientEvent {
    open spec fn obeys_from_spec() -> bool {
        true
    }

    open spec fn from_spec(v: RealtimeClientEventSessionUpdate) -> Self {
        RealtimeClientEvent::SessionUpdate(Box::new(v))
    }
}

impl From<RealtimeTranslationClientEventSessionUpdate> for RealtimeTranslationClientEvent {
    fn from(v: RealtimeTranslationClientEventSessionUpdate) -> (r: Self) {
        RealtimeTranslationClientEvent::SessionUpdate(v)
    }
}

impl vstd::std_specs::convert::FromSpecImpl<RealtimeTranslationClientEventSessionUpdate> for RealtimeTranslationClientEvent {
    open spec fn obeys_from_spec() -> bool {
        true
    }

    open spec fn from_spec(v: RealtimeTranslationClientEventSessionUpdate) -> Self {
        RealtimeTranslationClientEvent::SessionUpdate(v)
    }
}

impl From<RealtimeTranslationClientEventInputAudioBufferAppend> for RealtimeTranslationClientEvent {
    fn from(v: RealtimeTranslationClientEventInputAudioBufferAppend) -> (r: Self) {
        RealtimeTranslationClientEvent::InputAudioBufferAppend(v)
    }
}

impl vstd::std_specs::convert::FromSpecImpl<RealtimeTranslationClientEventInputAudioBufferAppend> for RealtimeTranslationClientEvent {
    open spec fn obeys_from_spec() -> bool {
        true
    }

    open spec fn from_spec(v: RealtimeTranslationClientEventInputAudioBufferAppend) -> Self {
        RealtimeTranslationClientEvent::InputAudioBufferAppend(v)
    }
}

impl From<RealtimeTranslationClientEventSessionClose> for RealtimeTranslationClientEvent {
    fn from(v: RealtimeTranslationClientEventSessionClose) -> (r: Self) {
        RealtimeTranslationClientEvent::SessionClose(v)
    }
}

impl vstd::std_specs::convert::FromSpecImpl<RealtimeTranslationClientEventSessionClose> for RealtimeTranslationClientEvent {
    open spec fn obeys_from_spec() -> bool {
        true
    }

    open spec fn from_spec(v: RealtimeTranslationClientEventSessionClose) -> Self {
        RealtimeTranslationClientEvent::SessionClose(v)
    }
}

} // verus!
