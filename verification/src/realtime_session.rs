//! Realtime session configuration: audio settings, tracing, truncation,
//! tools and tool choice, the session request and session resource, and the
//! client-secret and call requests that carry a session.
use vstd::prelude::*;
use crate::json::{ExtraFields, Json, JsonObject, JsonValue};
use crate::realtime::{
    discriminator_of, object_discriminator,
    CreateRealtimeSessionConstraintError, RealtimeAudioFormat, RealtimeAudioInputConfig,
    RealtimeVoice, UnknownRealtimeObject, audio_input_check,
    expiration_seconds_check, session_limits_check, validate_client_secret_limits,
    validate_realtime_audio_input, validate_session_limits,
};
use crate::realtime_calls::RealtimeSdp;
use crate::realtime_enums::{
    RealtimeOutputModality, RealtimeResponseConversation, RealtimeToolChoiceMode,
    RealtimeTracingMode, RealtimeTruncationMode, RealtimeVoiceName,
};
use crate::realtime_items::{
    RealtimeClientSecretExpiration, RealtimeConversationItem, RealtimeFunctionToolChoice,
    RealtimeMaxOutputTokens, RealtimeMcpToolChoice, RealtimeReasoning,
    RealtimeTruncationTokenLimits,
};
use crate::secret::WireSecret;
use crate::text::chars_eq;
use crate::wire::{Nullable, Omittable};

verus! {

broadcast use crate::json::lemma_value_view;

/// Output-audio settings of a Realtime session.
#[derive(Clone, Debug)]
pub struct RealtimeAudioOutputConfig {
    pub format: Omittable<RealtimeAudioFormat>,
    pub voice: Omittable<RealtimeVoice>,
    /// Playback speed, as its JSON number text.
    pub speed: Omittable<String>,
    pub extra: ExtraFields,
}

impl Default for RealtimeAudioOutputConfig {
    fn default() -> (r: Self)
        ensures
            r.format is Omitted,
            r.voice is Omitted,
            r.speed is Omitted,
            r.extra@ == Seq::<(Seq<char>, Json)>::empty(),
    {
        RealtimeAudioOutputConfig {
            format: Omittable::Omitted,
            voice: Omittable::Omitted,
            speed: Omittable::Omitted,
            extra: ExtraFields::new(),
        }
    }
}

impl RealtimeAudioOutputConfig {
    /// Members not modelled here, kept as received.
    pub fn extra_fields(&self) -> (r: &ExtraFields)
        ensures
            r@ == self.extra@,
    {
        &self.extra
    }
}

/// Input and output audio settings of a Realtime session request.
#[derive(Clone, Debug)]
pub struct RealtimeSessionAudio {
    pub input: Omittable<RealtimeAudioInputConfig>,
    pub output: Omittable<RealtimeAudioOutputConfig>,
    pub extra: ExtraFields,
}

impl Default for RealtimeSessionAudio {
    fn default() -> (r: Self)
        ensures
            r.input is Omitted,
            r.output is Omitted,
            r.extra@ == Seq::<(Seq<char>, Json)>::empty(),
    {
        RealtimeSessionAudio {
            input: Omittable::Omitted,
            output: Omittable::Omitted,
            extra: ExtraFields::new(),
        }
    }
}

impl RealtimeSessionAudio {
    /// Members not modelled here, kept as received.
    pub fn extra_fields(&self) -> (r: &ExtraFields)
        ensures
            r@ == self.extra@,
    {
        &self.extra
    }
}

/// Output-audio settings in effect on a session.
#[derive(Clone, Debug)]
pub struct RealtimeSessionAudioOutputState {
    pub format: Omittable<RealtimeAudioFormat>,
    pub voice: Omittable<RealtimeVoiceName>,
    /// Playback speed, as its JSON number text.
    pub speed: Omittable<String>,
    pub extra: ExtraFields,
}

impl Default for RealtimeSessionAudioOutputState {
    fn default() -> (r: Self)
        ensures
            r.format is Omitted,
            r.voice is Omitted,
            r.speed is Omitted,
            r.extra@ == Seq::<(Seq<char>, Json)>::empty(),
    {
        RealtimeSessionAudioOutputState {
            format: Omittable::Omitted,
            voice: Omittable::Omitted,
            speed: Omittable::Omitted,
            extra: ExtraFields::new(),
        }
    }
}

impl RealtimeSessionAudioOutputState {
    /// Members not modelled here, kept as received.
    pub fn extra_fields(&self) -> (r: &ExtraFields)
        ensures
            r@ == self.extra@,
    {
        &self.extra
    }
}

/// Input and output audio settings in effect on a session.
#[derive(Clone, Debug)]
pub struct RealtimeSessionAudioState {
    pub input: Omittable<RealtimeAudioInputConfig>,
    pub output: Omittable<RealtimeSessionAudioOutputState>,
    pub extra: ExtraFields,
}

impl Default for RealtimeSessionAudioState {
    fn default() -> (r: Self)
        ensures
            r.input is Omitted,
            r.output is Omitted,
            r.extra@ == Seq::<(Seq<char>, Json)>::empty(),
    {
        RealtimeSessionAudioState {
            input: Omittable::Omitted,
            output: Omittable::Omitted,
            extra: ExtraFields::new(),
        }
    }
}

impl RealtimeSessionAudioState {
    /// Members not modelled here, kept as received.
    pub fn extra_fields(&self) -> (r: &ExtraFields)
        ensures
            r@ == self.extra@,
    {
        &self.extra
    }
}

/// Input-audio settings of a transcription session.
#[derive(Clone, Debug)]
pub struct RealtimeTranscriptionAudio {
    pub input: Omittable<RealtimeAudioInputConfig>,
    pub extra: ExtraFields,
}

impl Default for RealtimeTranscriptionAudio {
    fn default() -> (r: Self)
        ensures
            r.input is Omitted,
            r.extra@ == Seq::<(Seq<char>, Json)>::empty(),
    {
        RealtimeTranscriptionAudio {
            input: Omittable::Omitted,
            extra: ExtraFields::new(),
        }
    }
}

impl RealtimeTranscriptionAudio {
    /// Members not modelled here, kept as received.
    pub fn extra_fields(&self) -> (r: &ExtraFields)
        ensures
            r@ == self.extra@,
    {
        &self.extra
    }
}

/// Output-audio override of one `response.create`.
#[derive(Clone, Debug)]
pub struct RealtimeResponseCreateAudioOutput {
    pub format: Omittable<RealtimeAudioFormat>,
    pub voice: Omittable<RealtimeVoice>,
    pub extra: ExtraFields,
}

impl Default for RealtimeResponseCreateAudioOutput {
    fn default() -> (r: Self)
        ensures
            r.format is Omitted,
            r.voice is Omitted,
            r.extra@ == Seq::<(Seq<char>, Json)>::empty(),
    {
        RealtimeResponseCreateAudioOutput {
            format: Omittable::Omitted,
            voice: Omittable::Omitted,
            extra: ExtraFields::new(),
        }
    }
}

impl RealtimeResponseCreateAudioOutput {
    /// Members not modelled here, kept as received.
    pub fn extra_fields(&self) -> (r: &ExtraFields)
        ensures
            r@ == self.extra@,
    {
        &self.extra
    }
}

/// Audio override of one `response.create`.
#[derive(Clone, Debug)]
pub struct RealtimeResponseCreateAudio {
    pub output: Omittable<RealtimeResponseCreateAudioOutput>,
    pub extra: ExtraFields,
}

impl Default for RealtimeResponseCreateAudio {
    fn default() -> (r: Self)
        ensures
            r.output is Omitted,
            r.extra@ == Seq::<(Seq<char>, Json)>::empty(),
    {
        RealtimeResponseCreateAudio {
            output: Omittable::Omitted,
            extra: ExtraFields::new(),
        }
    }
}

impl RealtimeResponseCreateAudio {
    /// Members not modelled here, kept as received.
    pub fn extra_fields(&self) -> (r: &ExtraFields)
        ensures
            r@ == self.extra@,
    {
        &self.extra
    }
}

/// Output-audio settings in effect on a response.
#[derive(Clone, Debug)]
pub struct RealtimeResponseAudioOutput {
    pub format: Omittable<RealtimeAudioFormat>,
    pub voice: Omittable<RealtimeVoiceName>,
    pub extra: ExtraFields,
}

impl Default for RealtimeResponseAudioOutput {
    fn default() -> (r: Self)
        ensures
            r.format is Omitted,
            r.voice is Omitted,
            r.extra@ == Seq::<(Seq<char>, Json)>::empty(),
    {
        RealtimeResponseAudioOutput {
            format: Omittable::Omitted,
            voice: Omittable::Omitted,
            extra: ExtraFields::new(),
        }
    }
}

impl RealtimeResponseAudioOutput {
    /// Members not modelled here, kept as received.
    pub fn extra_fields(&self) -> (r: &ExtraFields)
        ensures
            r@ == self.extra@,
    {
        &self.extra
    }
}

/// Audio settings in effect on a response.
#[derive(Clone, Debug)]
pub struct RealtimeResponseAudio {
    pub output: Omittable<RealtimeResponseAudioOutput>,
    pub extra: ExtraFields,
}

impl Default for RealtimeResponseAudio {
    fn default() -> (r: Self)
        ensures
            r.output is Omitted,
            r.extra@ == Seq::<(Seq<char>, Json)>::empty(),
    {
        RealtimeResponseAudio {
            output: Omittable::Omitted,
            extra: ExtraFields::new(),
        }
    }
}

impl RealtimeResponseAudio {
    /// Members not modelled here, kept as received.
    pub fn extra_fields(&self) -> (r: &ExtraFields)
        ensures
            r@ == self.extra@,
    {
        &self.extra
    }
}

/// Granular tracing settings.
#[derive(Clone, Debug)]
pub struct RealtimeTracingConfig {
    pub workflow_name: Omittable<String>,
    pub group_id: Omittable<String>,
    /// Free-form trace metadata.
    pub metadata: Omittable<JsonObject>,
    pub extra: ExtraFields,
}

impl Default for RealtimeTracingConfig {
    fn default() -> (r: Self)
        ensures
            r.workflow_name is Omitted,
            r.group_id is Omitted,
            r.metadata is Omitted,
            r.extra@ == Seq::<(Seq<char>, Json)>::empty(),
    {
        RealtimeTracingConfig {
            workflow_name: Omittable::Omitted,
            group_id: Omittable::Omitted,
            metadata: Omittable::Omitted,
            extra: ExtraFields::new(),
        }
    }
}

impl RealtimeTracingConfig {
    /// Members not modelled here, kept as received.
    pub fn extra_fields(&self) -> (r: &ExtraFields)
        ensures
            r@ == self.extra@,
    {
        &self.extra
    }
}

/// Tracing of a session: a mode such as `auto`, or granular settings.
#[derive(Clone, Debug)]
pub enum RealtimeTracing {
    Mode(RealtimeTracingMode),
    Config(RealtimeTracingConfig),
}

/// Truncation that keeps a share of the conversation.
#[derive(Clone, Debug)]
pub struct RealtimeRetentionRatioTruncation {
    /// The share of the conversation kept, as its JSON number text.
    pub retention_ratio: String,
    pub token_limits: Omittable<RealtimeTruncationTokenLimits>,
    pub extra: ExtraFields,
}

impl RealtimeRetentionRatioTruncation {
    /// Retention-ratio truncation keeping `retention_ratio`, given as its
    /// JSON number text.
    pub fn new(retention_ratio: &str) -> (r: Self)
        ensures
            r.retention_ratio@ == retention_ratio@,
            r.token_limits is Omitted,
            r.extra@ == Seq::<(Seq<char>, Json)>::empty(),
    {
        RealtimeRetentionRatioTruncation {
            retention_ratio: retention_ratio.to_owned(),
            token_limits: Omittable::Omitted,
            extra: ExtraFields::new(),
        }
    }

    /// Members not modelled here, kept as received.
    pub fn extra_fields(&self) -> (r: &ExtraFields)
        ensures
            r@ == self.extra@,
    {
        &self.extra
    }
}

/// How a session truncates its conversation; an object of a `type` not
/// modelled here is kept whole.
#[derive(Clone, Debug)]
pub enum RealtimeTruncation {
    Mode(RealtimeTruncationMode),
    RetentionRatio(RealtimeRetentionRatioTruncation),
    Unknown(UnknownRealtimeObject),
}

/// The variant a decoded truncation value takes.
#[derive(Debug, Clone, Copy, PartialEq, Eq, Structural)]
pub enum RealtimeTruncationBranch {
    Mode,
    RetentionRatio,
    Unknown,
}

/// How a truncation value is routed: a string is a mode, an object goes by
/// its `type` tag.
pub open spec fn truncation_branch_of(v: Json) -> Result<RealtimeTruncationBranch, Seq<char>> {
    match v {
        Json::Str(_) => Ok(RealtimeTruncationBranch::Mode),
        Json::Object(_) => match discriminator_of(v) {
            Ok(tag) => if tag == "retention_ratio"@ {
                Ok(RealtimeTruncationBranch::RetentionRatio)
            } else {
                Ok(RealtimeTruncationBranch::Unknown)
            },
            Err(m) => Err(m),
        },
        _ => Err("Realtime truncation must be a string or object"@),
    }
}

/// Routes a decoded truncation value.
pub fn truncation_branch(value: &JsonValue) -> (r: Result<RealtimeTruncationBranch, &'static str>)
    ensures
        match r {
            Ok(b) => truncation_branch_of(value@) == Ok::<RealtimeTruncationBranch, Seq<char>>(b),
            Err(m) => truncation_branch_of(value@) == Err::<RealtimeTruncationBranch, Seq<char>>(
                m@,
            ),
        },
{
    proof {
        reveal_strlit("retention_ratio");
        reveal_strlit("Realtime truncation must be a string or object");
    }
    match value {
        JsonValue::String(_) => Ok(RealtimeTruncationBranch::Mode),
        JsonValue::Object(_) => match object_discriminator(value) {
            Ok(tag) => if chars_eq(tag, "retention_ratio") {
                Ok(RealtimeTruncationBranch::RetentionRatio)
            } else {
                Ok(RealtimeTruncationBranch::Unknown)
            },
            Err(m) => Err(m),
        },
        _ => Err("Realtime truncation must be a string or object"),
    }
}

/// A function the model may call during a session.
#[derive(Clone, Debug)]
pub struct RealtimeFunctionTool {
    pub name: Omittable<String>,
    pub description: Omittable<String>,
    /// JSON Schema of the arguments.
    pub parameters: Omittable<JsonValue>,
    pub extra: ExtraFields,
}

impl RealtimeFunctionTool {
    /// A function tool named `name`.
    pub fn new(name: &str) -> (r: Self)
        ensures
            r.name matches Omittable::Value(n) && n@ == name@,
            r.description is Omitted,
            r.parameters is Omitted,
            r.extra@ == Seq::<(Seq<char>, Json)>::empty(),
    {
        RealtimeFunctionTool {
            name: Omittable::Value(name.to_owned()),
            description: Omittable::Omitted,
            parameters: Omittable::Omitted,
            extra: ExtraFields::new(),
        }
    }

    /// Members not modelled here, kept as received.
    pub fn extra_fields(&self) -> (r: &ExtraFields)
        ensures
            r@ == self.extra@,
    {
        &self.extra
    }
}

/// A tool available to a Realtime model. An MCP tool is the Responses MCP
/// tool definition, held here as its JSON object; a tool of a `type` not
/// modelled here is kept whole.
#[derive(Clone, Debug)]
pub enum RealtimeTool {
    Function(RealtimeFunctionTool),
    Mcp(JsonObject),
    Unknown(UnknownRealtimeObject),
}

/// The variant a decoded tool, or the object form of a tool choice, takes.
#[derive(Debug, Clone, Copy, PartialEq, Eq, Structural)]
pub enum RealtimeToolBranch {
    Function,
    Mcp,
    Unknown,
}

/// The branch of a `type` tag of a tool or a tool choice.
pub open spec fn tool_branch_of_tag(tag: Seq<char>) -> RealtimeToolBranch {
    if tag == "function"@ {
        RealtimeToolBranch::Function
    } else if tag == "mcp"@ {
        RealtimeToolBranch::Mcp
    } else {
        RealtimeToolBranch::Unknown
    }
}

/// How a tool is routed: by its `type` tag.
pub open spec fn tool_branch_of(v: Json) -> Result<RealtimeToolBranch, Seq<char>> {
    match discriminator_of(v) {
        Ok(tag) => Ok(tool_branch_of_tag(tag)),
        Err(m) => Err(m),
    }
}

/// Routes a decoded tool.
pub fn tool_branch(value: &JsonValue) -> (r: Result<RealtimeToolBranch, &'static str>)
    ensures
        match r {
            Ok(b) => tool_branch_of(value@) == Ok::<RealtimeToolBranch, Seq<char>>(b),
            Err(m) => tool_branch_of(value@) == Err::<RealtimeToolBranch, Seq<char>>(m@),
        },
{
    proof {
        reveal_strlit("function");
        reveal_strlit("mcp");
    }
    match object_discriminator(value) {
        Ok(tag) => if chars_eq(tag, "function") {
            Ok(RealtimeToolBranch::Function)
        } else if chars_eq(tag, "mcp") {
            Ok(RealtimeToolBranch::Mcp)
        } else {
            Ok(RealtimeToolBranch::Unknown)
        },
        Err(m) => Err(m),
    }
}

/// Which tools the model may use: a mode, one function, or one MCP server
/// or tool; a choice of a `type` not modelled here is kept whole.
#[derive(Clone, Debug)]
pub enum RealtimeToolChoice {
    Mode(RealtimeToolChoiceMode),
    Function(RealtimeFunctionToolChoice),
    Mcp(RealtimeMcpToolChoice),
    Unknown(UnknownRealtimeObject),
}

/// How a tool choice is routed: a string is a mode (`None`), an object goes
/// by its `type` tag as a tool does.
pub open spec fn tool_choice_branch_of(v: Json) -> Result<Option<RealtimeToolBranch>, Seq<char>> {
    match v {
        Json::Str(_) => Ok(None),
        _ => match discriminator_of(v) {
            Ok(tag) => Ok(Some(tool_branch_of_tag(tag))),
            Err(m) => Err(m),
        },
    }
}

/// Routes a decoded tool choice: `None` for a mode string.
pub fn tool_choice_branch(value: &JsonValue) -> (r: Result<Option<RealtimeToolBranch>, &'static str>)
    ensures
        match r {
            Ok(b) => tool_choice_branch_of(value@) == Ok::<Option<RealtimeToolBranch>, Seq<char>>(
                b,
            ),
            Err(m) => tool_choice_branch_of(value@) == Err::<Option<RealtimeToolBranch>, Seq<char>>(
                m@,
            ),
        },
{
    match value {
        JsonValue::String(_) => Ok(None),
        _ => match tool_branch(value) {
            Ok(b) => Ok(Some(b)),
            Err(m) => Err(m),
        },
    }
}

/// A Realtime session configuration, sent to create a session or in
/// `session.update`.
#[derive(Clone, Debug)]
pub struct RealtimeSessionCreateRequest {
    pub output_modalities: Omittable<Vec<RealtimeOutputModality>>,
    pub model: Omittable<String>,
    pub instructions: Omittable<String>,
    pub audio: Omittable<RealtimeSessionAudio>,
    /// Extra outputs to return (the wire member `include`).
    pub included: Omittable<Vec<String>>,
    pub tracing: Omittable<Nullable<RealtimeTracing>>,
    pub tools: Omittable<Vec<RealtimeTool>>,
    pub tool_choice: Omittable<RealtimeToolChoice>,
    pub parallel_tool_calls: Omittable<bool>,
    pub reasoning: Omittable<RealtimeReasoning>,
    pub max_output_tokens: Omittable<RealtimeMaxOutputTokens>,
    pub truncation: Omittable<RealtimeTruncation>,
    /// The Responses prompt reference, held as its JSON object.
    pub prompt: Omittable<Nullable<JsonObject>>,
    pub extra: ExtraFields,
}

/// The request that attaches a session to an incoming call.
pub type RealtimeCallAcceptRequest = RealtimeSessionCreateRequest;

impl Default for RealtimeSessionCreateRequest {
    fn default() -> (r: Self)
        ensures
            r.output_modalities is Omitted,
            r.model is Omitted,
            r.instructions is Omitted,
            r.audio is Omitted,
            r.included is Omitted,
            r.tracing is Omitted,
            r.tools is Omitted,
            r.tool_choice is Omitted,
            r.parallel_tool_calls is Omitted,
            r.reasoning is Omitted,
            r.max_output_tokens is Omitted,
            r.truncation is Omitted,
            r.prompt is Omitted,
            r.extra@ == Seq::<(Seq<char>, Json)>::empty(),
    {
        RealtimeSessionCreateRequest {
            output_modalities: Omittable::Omitted,
            model: Omittable::Omitted,
            instructions: Omittable::Omitted,
            audio: Omittable::Omitted,
            included: Omittable::Omitted,
            tracing: Omittable::Omitted,
            tools: Omittable::Omitted,
            tool_choice: Omittable::Omitted,
            parallel_tool_calls: Omittable::Omitted,
            reasoning: Omittable::Omitted,
            max_output_tokens: Omittable::Omitted,
            truncation: Omittable::Omitted,
            prompt: Omittable::Omitted,
            extra: ExtraFields::new(),
        }
    }
}

/// The input-audio settings a session request carries.
pub open spec fn session_input_of(s: RealtimeSessionCreateRequest) -> Option<RealtimeAudioInputConfig> {
    match s.audio {
        Omittable::Value(a) => match a.input {
            Omittable::Value(i) => Some(i),
            Omittable::Omitted => None,
        },
        Omittable::Omitted => None,
    }
}

/// The output-audio settings a session request carries.
pub open spec fn session_output_of(s: RealtimeSessionCreateRequest) -> Option<RealtimeAudioOutputConfig> {
    match s.audio {
        Omittable::Value(a) => match a.output {
            Omittable::Value(o) => Some(o),
            Omittable::Omitted => None,
        },
        Omittable::Omitted => None,
    }
}

/// The output-audio format a session request carries.
pub open spec fn session_output_format_of(s: RealtimeSessionCreateRequest) -> Option<RealtimeAudioFormat> {
    match session_output_of(s) {
        Some(o) => match o.format {
            Omittable::Value(f) => Some(f),
            Omittable::Omitted => None,
        },
        None => None,
    }
}

/// Whether a session request carries an output speed.
pub open spec fn session_has_speed(s: RealtimeSessionCreateRequest) -> bool {
    session_output_of(s) matches Some(o) && o.speed is Value
}

/// The retention-ratio truncation a session request carries.
pub open spec fn session_retention_of(s: RealtimeSessionCreateRequest) -> Option<
    RealtimeRetentionRatioTruncation,
> {
    match s.truncation {
        Omittable::Value(RealtimeTruncation::RetentionRatio(t)) => Some(t),
        _ => None,
    }
}

/// The `post_instructions` token limit of a retention-ratio truncation.
pub open spec fn session_post_instructions_of(s: RealtimeSessionCreateRequest) -> Option<i64> {
    match session_retention_of(s) {
        Some(t) => match t.token_limits {
            Omittable::Value(l) => match l.post_instructions {
                Omittable::Value(p) => Some(p),
                Omittable::Omitted => None,
            },
            Omittable::Omitted => None,
        },
        None => None,
    }
}

/// The outcome of the limits of a session request, given the outcomes of
/// the range checks of its output speed and retention ratio, which count
/// only where the request carries them.
pub open spec fn session_request_check(
    s: RealtimeSessionCreateRequest,
    output_speed_check: Result<(), CreateRealtimeSessionConstraintError>,
    retention_ratio_check: Result<(), CreateRealtimeSessionConstraintError>,
) -> Result<(), CreateRealtimeSessionConstraintError> {
    session_limits_check(
        session_input_of(s),
        session_output_format_of(s),
        if session_has_speed(s) {
            Some(output_speed_check)
        } else {
            None
        },
        if session_retention_of(s) is Some {
            Some(retention_ratio_check)
        } else {
            None
        },
        session_post_instructions_of(s),
    )
}

impl RealtimeSessionCreateRequest {
    /// Checks the session limits: input audio, output format, output speed,
    /// retention ratio, then the `post_instructions` minimum. The output
    /// speed and retention ratio are floating-point values that the caller
    /// range-checks from their JSON number text; their outcomes are used
    /// only where the request carries the value.
    pub fn validate(
        &self,
        output_speed_check: Result<(), CreateRealtimeSessionConstraintError>,
        retention_ratio_check: Result<(), CreateRealtimeSessionConstraintError>,
    ) -> (r: Result<(), CreateRealtimeSessionConstraintError>)
        ensures
            r == session_request_check(*self, output_speed_check, retention_ratio_check),
    {
        let mut input: Option<&RealtimeAudioInputConfig> = None;
        let mut format: Option<&RealtimeAudioFormat> = None;
        let mut speed: Option<Result<(), CreateRealtimeSessionConstraintError>> = None;
        if let Omittable::Value(audio) = &self.audio {
            if let Omittable::Value(i) = &audio.input {
                input = Some(i);
            }
            if let Omittable::Value(o) = &audio.output {
                if let Omittable::Value(f) = &o.format {
                    format = Some(f);
                }
                if let Omittable::Value(_) = &o.speed {
                    speed = Some(output_speed_check);
                }
            }
        }
        let mut ratio: Option<Result<(), CreateRealtimeSessionConstraintError>> = None;
        let mut post: Option<i64> = None;
        if let Omittable::Value(RealtimeTruncation::RetentionRatio(t)) = &self.truncation {
            ratio = Some(retention_ratio_check);
            if let Omittable::Value(l) = &t.token_limits {
                if let Omittable::Value(p) = l.post_instructions {
                    post = Some(p);
                }
            }
        }
        validate_session_limits(input, format, speed, ratio, post)
    }

    /// Members not modelled here, kept as received.
    pub fn extra_fields(&self) -> (r: &ExtraFields)
        ensures
            r@ == self.extra@,
    {
        &self.extra
    }
}

/// A transcription-session configuration.
#[derive(Clone, Debug)]
pub struct RealtimeTranscriptionSessionCreateRequest {
    pub audio: Omittable<RealtimeTranscriptionAudio>,
    /// Extra outputs to return (the wire member `include`).
    pub included: Omittable<Vec<String>>,
    pub extra: ExtraFields,
}

impl Default for RealtimeTranscriptionSessionCreateRequest {
    fn default() -> (r: Self)
        ensures
            r.audio is Omitted,
            r.included is Omitted,
            r.extra@ == Seq::<(Seq<char>, Json)>::empty(),
    {
        RealtimeTranscriptionSessionCreateRequest {
            audio: Omittable::Omitted,
            included: Omittable::Omitted,
            extra: ExtraFields::new(),
        }
    }
}

/// The outcome of the limits of a transcription-session request: those of
/// its input audio, where present.
pub open spec fn transcription_request_check(
    s: RealtimeTranscriptionSessionCreateRequest,
) -> Result<(), CreateRealtimeSessionConstraintError> {
    match s.audio {
        Omittable::Value(a) => match a.input {
            Omittable::Value(i) => audio_input_check(i),
            Omittable::Omitted => Ok(()),
        },
        Omittable::Omitted => Ok(()),
    }
}

impl RealtimeTranscriptionSessionCreateRequest {
    /// Checks the limits of the input audio, where present.
    pub fn validate(&self) -> (r: Result<(), CreateRealtimeSessionConstraintError>)
        ensures
            r == transcription_request_check(*self),
    {
        if let Omittable::Value(audio) = &self.audio {
            if let Omittable::Value(input) = &audio.input {
                return validate_realtime_audio_input(input);
            }
        }
        Ok(())
    }

    /// Members not modelled here, kept as received.
    pub fn extra_fields(&self) -> (r: &ExtraFields)
        ensures
            r@ == self.extra@,
    {
        &self.extra
    }
}

/// The session configuration of `session.update` and of client-secret
/// requests; one of a `type` not modelled here is kept whole.
#[derive(Clone, Debug)]
pub enum RealtimeSessionConfig {
    Realtime(Box<RealtimeSessionCreateRequest>),
    Transcription(Box<RealtimeTranscriptionSessionCreateRequest>),
    Unknown(UnknownRealtimeObject),
}

/// The outcome of the limits of a session configuration; one of an
/// unmodelled `type` passes.
pub open spec fn session_config_check(
    c: RealtimeSessionConfig,
    output_speed_check: Result<(), CreateRealtimeSessionConstraintError>,
    retention_ratio_check: Result<(), CreateRealtimeSessionConstraintError>,
) -> Result<(), CreateRealtimeSessionConstraintError> {
    match c {
        RealtimeSessionConfig::Realtime(s) => session_request_check(
            *s,
            output_speed_check,
            retention_ratio_check,
        ),
        RealtimeSessionConfig::Transcription(t) => transcription_request_check(*t),
        RealtimeSessionConfig::Unknown(_) => Ok(()),
    }
}

impl RealtimeSessionConfig {
    /// Checks the limits of the session inside; the two outcomes are those
    /// of [`RealtimeSessionCreateRequest::validate`].
    pub fn validate(
        &self,
        output_speed_check: Result<(), CreateRealtimeSessionConstraintError>,
        retention_ratio_check: Result<(), CreateRealtimeSessionConstraintError>,
    ) -> (r: Result<(), CreateRealtimeSessionConstraintError>)
        ensures
            r == session_config_check(*self, output_speed_check, retention_ratio_check),
    {
        match self {
            RealtimeSessionConfig::Realtime(s) => s.validate(output_speed_check, retention_ratio_check),
            RealtimeSessionConfig::Transcription(t) => t.validate(),
            RealtimeSessionConfig::Unknown(_) => Ok(()),
        }
    }
}

/// The variant a decoded session configuration or session resource takes.
#[derive(Debug, Clone, Copy, PartialEq, Eq, Structural)]
pub enum RealtimeSessionBranch {
    Realtime,
    Transcription,
    Unknown,
}

/// How a session is routed: by its `type` tag.
pub open spec fn session_branch_of(v: Json) -> Result<RealtimeSessionBranch, Seq<char>> {
    match discriminator_of(v) {
        Ok(tag) => if tag == "realtime"@ {
            Ok(RealtimeSessionBranch::Realtime)
        } else if tag == "transcription"@ {
            Ok(RealtimeSessionBranch::Transcription)
        } else {
            Ok(RealtimeSessionBranch::Unknown)
        },
        Err(m) => Err(m),
    }
}

/// Routes a decoded session configuration or session resource.
pub fn session_branch(value: &JsonValue) -> (r: Result<RealtimeSessionBranch, &'static str>)
    ensures
        match r {
            Ok(b) => session_branch_of(value@) == Ok::<RealtimeSessionBranch, Seq<char>>(b),
            Err(m) => session_branch_of(value@) == Err::<RealtimeSessionBranch, Seq<char>>(m@),
        },
{
    proof {
        reveal_strlit("realtime");
        reveal_strlit("transcription");
    }
    match object_discriminator(value) {
        Ok(tag) => if chars_eq(tag, "realtime") {
            Ok(RealtimeSessionBranch::Realtime)
        } else if chars_eq(tag, "transcription") {
            Ok(RealtimeSessionBranch::Transcription)
        } else {
            Ok(RealtimeSessionBranch::Unknown)
        },
        Err(m) => Err(m),
    }
}
/// A Realtime session as the server reports it.
#[derive(Clone, Debug)]
pub struct RealtimeSession {
    pub id: String,
    pub expires_at: Omittable<i64>,
    pub output_modalities: Omittable<Vec<RealtimeOutputModality>>,
    pub model: Omittable<String>,
    pub instructions: Omittable<String>,
    pub audio: Omittable<RealtimeSessionAudioState>,
    /// Extra outputs returned (the wire member `include`).
    pub included: Omittable<Nullable<Vec<String>>>,
    pub tracing: Omittable<Nullable<RealtimeTracing>>,
    pub tools: Omittable<Vec<RealtimeTool>>,
    pub tool_choice: Omittable<RealtimeToolChoice>,
    pub reasoning: Omittable<RealtimeReasoning>,
    pub max_output_tokens: Omittable<RealtimeMaxOutputTokens>,
    pub truncation: Omittable<RealtimeTruncation>,
    /// The Responses prompt reference, held as its JSON object.
    pub prompt: Omittable<Nullable<JsonObject>>,
    pub extra: ExtraFields,
}

impl RealtimeSession {
    /// Members not modelled here, kept as received.
    pub fn extra_fields(&self) -> (r: &ExtraFields)
        ensures
            r@ == self.extra@,
    {
        &self.extra
    }
}

/// A transcription session as the server reports it.
#[derive(Clone, Debug)]
pub struct RealtimeTranscriptionSession {
    pub id: String,
    pub object: String,
    pub expires_at: Omittable<i64>,
    /// Extra outputs returned (the wire member `include`).
    pub included: Omittable<Nullable<Vec<String>>>,
    pub audio: Omittable<RealtimeTranscriptionAudio>,
    pub extra: ExtraFields,
}

impl RealtimeTranscriptionSession {
    /// Members not modelled here, kept as received.
    pub fn extra_fields(&self) -> (r: &ExtraFields)
        ensures
            r@ == self.extra@,
    {
        &self.extra
    }
}

/// A Realtime or transcription session as the server reports it; one of a
/// `type` not modelled here is kept whole.
#[derive(Clone, Debug)]
pub enum RealtimeSessionState {
    Realtime(Box<RealtimeSession>),
    Transcription(Box<RealtimeTranscriptionSession>),
    Unknown(UnknownRealtimeObject),
}

/// The request body that creates a Realtime client secret.
#[derive(Clone, Debug)]
pub struct RealtimeCreateClientSecretRequest {
    pub expires_after: Omittable<RealtimeClientSecretExpiration>,
    pub session: Omittable<RealtimeSessionConfig>,
    pub extra: ExtraFields,
}

impl Default for RealtimeCreateClientSecretRequest {
    fn default() -> (r: Self)
        ensures
            r.expires_after is Omitted,
            r.session is Omitted,
            r.extra@ == Seq::<(Seq<char>, Json)>::empty(),
    {
        RealtimeCreateClientSecretRequest {
            expires_after: Omittable::Omitted,
            session: Omittable::Omitted,
            extra: ExtraFields::new(),
        }
    }
}

impl RealtimeCreateClientSecretRequest {
    /// Checks the expiration (`10..=7200` seconds where present), then the
    /// session inside; the two outcomes are those of
    /// [`RealtimeSessionCreateRequest::validate`].
    pub fn validate(
        &self,
        output_speed_check: Result<(), CreateRealtimeSessionConstraintError>,
        retention_ratio_check: Result<(), CreateRealtimeSessionConstraintError>,
    ) -> (r: Result<(), CreateRealtimeSessionConstraintError>)
        ensures
            r == client_secret_request_check(*self, output_speed_check, retention_ratio_check),
    {
        let seconds = match &self.expires_after {
            Omittable::Value(e) => match e.seconds {
                Omittable::Value(s) => Omittable::Value(s),
                Omittable::Omitted => Omittable::Omitted,
            },
            Omittable::Omitted => Omittable::Omitted,
        };
        let session = match &self.session {
            Omittable::Value(c) => c.validate(output_speed_check, retention_ratio_check),
            Omittable::Omitted => Ok(()),
        };
        validate_client_secret_limits(seconds, session)
    }

    /// Members not modelled here, kept as received.
    pub fn extra_fields(&self) -> (r: &ExtraFields)
        ensures
            r@ == self.extra@,
    {
        &self.extra
    }
}

/// A Realtime client secret with the session it opens.
#[derive(Clone)]
pub struct RealtimeCreateClientSecretResponse {
    pub value: WireSecret,
    pub expires_at: i64,
    pub session: RealtimeSessionState,
    pub extra: ExtraFields,
}

impl RealtimeCreateClientSecretResponse {
    /// Members not modelled here, kept as received.
    pub fn extra_fields(&self) -> (r: &ExtraFields)
        ensures
            r@ == self.extra@,
    {
        &self.extra
    }
}

/// The request that creates a WebRTC call from an SDP offer.
#[derive(Clone, Debug)]
pub struct RealtimeCallCreateRequest {
    pub sdp: RealtimeSdp,
    pub session: Omittable<RealtimeSessionCreateRequest>,
    pub extra: ExtraFields,
}

impl RealtimeCallCreateRequest {
    /// A call request for the SDP offer `sdp`, with no session.
    pub fn new(sdp: RealtimeSdp) -> (r: Self)
        ensures
            r.sdp@ == sdp@,
            r.session is Omitted,
            r.extra@ == Seq::<(Seq<char>, Json)>::empty(),
    {
        RealtimeCallCreateRequest { sdp, session: Omittable::Omitted, extra: ExtraFields::new() }
    }

    /// Sets the initial session configuration.
    pub fn with_session(self, session: RealtimeSessionCreateRequest) -> (r: Self)
        ensures
            r.session == Omittable::Value(session),
            r.sdp@ == self.sdp@,
            r.extra@ == self.extra@,
    {
        RealtimeCallCreateRequest { sdp: self.sdp, session: Omittable::Value(session), extra: self.extra }
    }

    /// Omits the initial session configuration.
    pub fn clear_session(self) -> (r: Self)
        ensures
            r.session is Omitted,
            r.sdp@ == self.sdp@,
            r.extra@ == self.extra@,
    {
        RealtimeCallCreateRequest { sdp: self.sdp, session: Omittable::Omitted, extra: self.extra }
    }

    /// Members not modelled here, kept as received.
    pub fn extra_fields(&self) -> (r: &ExtraFields)
        ensures
            r@ == self.extra@,
    {
        &self.extra
    }
}

/// The settings of one `response.create`.
pub struct RealtimeResponseCreateParams {
    pub output_modalities: Omittable<Vec<RealtimeOutputModality>>,
    pub instructions: Omittable<String>,
    pub audio: Omittable<RealtimeResponseCreateAudio>,
    pub tools: Omittable<Vec<RealtimeTool>>,
    pub tool_choice: Omittable<RealtimeToolChoice>,
    pub parallel_tool_calls: Omittable<bool>,
    pub reasoning: Omittable<RealtimeReasoning>,
    pub max_output_tokens: Omittable<RealtimeMaxOutputTokens>,
    pub conversation: Omittable<RealtimeResponseConversation>,
    /// String pairs, by key.
    pub metadata: Omittable<Nullable<Vec<(String, String)>>>,
    /// The Responses prompt reference, held as its JSON object.
    pub prompt: Omittable<Nullable<JsonObject>>,
    pub input: Omittable<Vec<RealtimeConversationItem>>,
    pub extra: ExtraFields,
}

impl Default for RealtimeResponseCreateParams {
    fn default() -> (r: Self)
        ensures
            r.output_modalities is Omitted,
            r.instructions is Omitted,
            r.audio is Omitted,
            r.tools is Omitted,
            r.tool_choice is Omitted,
            r.parallel_tool_calls is Omitted,
            r.reasoning is Omitted,
            r.max_output_tokens is Omitted,
            r.conversation is Omitted,
            r.metadata is Omitted,
            r.prompt is Omitted,
            r.input is Omitted,
            r.extra@ == Seq::<(Seq<char>, Json)>::empty(),
    {
        RealtimeResponseCreateParams {
            output_modalities: Omittable::Omitted,
            instructions: Omittable::Omitted,
            audio: Omittable::Omitted,
            tools: Omittable::Omitted,
            tool_choice: Omittable::Omitted,
            parallel_tool_calls: Omittable::Omitted,
            reasoning: Omittable::Omitted,
            max_output_tokens: Omittable::Omitted,
            conversation: Omittable::Omitted,
            metadata: Omittable::Omitted,
            prompt: Omittable::Omitted,
            input: Omittable::Omitted,
            extra: ExtraFields::new(),
        }
    }
}

impl RealtimeResponseCreateParams {
    /// Members not modelled here, kept as received.
    pub fn extra_fields(&self) -> (r: &ExtraFields)
        ensures
            r@ == self.extra@,
    {
        &self.extra
    }
}

/// The expiration seconds a client-secret request carries.
pub open spec fn client_secret_seconds_of(s: RealtimeCreateClientSecretRequest) -> Omittable<i64> {
    match s.expires_after {
        Omittable::Value(e) => e.seconds,
        Omittable::Omitted => Omittable::Omitted,
    }
}

/// The outcome of the limits of a client-secret request: the expiration
/// first, then the session inside.
pub open spec fn client_secret_request_check(
    s: RealtimeCreateClientSecretRequest,
    output_speed_check: Result<(), CreateRealtimeSessionConstraintError>,
    retention_ratio_check: Result<(), CreateRealtimeSessionConstraintError>,
) -> Result<(), CreateRealtimeSessionConstraintError> {
    if expiration_seconds_check(client_secret_seconds_of(s)) is Err {
        expiration_seconds_check(client_secret_seconds_of(s))
    } else {
        match s.session {
            Omittable::Value(c) => session_config_check(c, output_speed_check, retention_ratio_check),
            Omittable::Omitted => Ok(()),
        }
    }
}

impl From<RealtimeFunctionTool> for RealtimeTool {
    fn from(v: RealtimeFunctionTool) -> (r: Self) {
        RealtimeTool::Function(v)
    }
}

impl vstd::std_specs::convert::FromSpecImpl<RealtimeFunctionTool> for RealtimeTool {
    open spec fn obeys_from_spec() -> bool {
        true
    }

    open spec fn from_spec(v: RealtimeFunctionTool) -> Self {
        RealtimeTool::Function(v)
    }
}

impl From<RealtimeToolChoiceMode> for RealtimeToolChoice {
    fn from(v: RealtimeToolChoiceMode) -> (r: Self) {
        RealtimeToolChoice::Mode(v)
    }
}

impl vstd::std_specs::convert::FromSpecImpl<RealtimeToolChoiceMode> for RealtimeToolChoice {
    open spec fn obeys_from_spec() -> bool {
        true
    }

    open spec fn from_spec(v: RealtimeToolChoiceMode) -> Self {
        RealtimeToolChoice::Mode(v)
    }
}

impl From<RealtimeFunctionToolChoice> for RealtimeToolChoice {
    fn from(v: RealtimeFunctionToolChoice) -> (r: Self) {
        RealtimeToolChoice::Function(v)
    }
}

impl vstd::std_specs::convert::FromSpecImpl<RealtimeFunctionToolChoice> for RealtimeToolChoice {
    open spec fn obeys_from_spec() -> bool {
        true
    }

    open spec fn from_spec(v: RealtimeFunctionToolChoice) -> Self {
        RealtimeToolChoice::Function(v)
    }
}

impl From<RealtimeMcpToolChoice> for RealtimeToolChoice {
    fn from(v: RealtimeMcpToolChoice) -> (r: Self) {
        RealtimeToolChoice::Mcp(v)
    }
}

impl vstd::std_specs::convert::FromSpecImpl<RealtimeMcpToolChoice> for RealtimeToolChoice {
    open spec fn obeys_from_spec() -> bool {
        true
    }

    open spec fn from_spec(v: RealtimeMcpToolChoice) -> Self {
        RealtimeToolChoice::Mcp(v)
    }
}

impl From<RealtimeSessionCreateRequest> for RealtimeSessionConfig {
    fn from(v: RealtimeSessionCreateRequest) -> (r: Self) {
        RealtimeSessionConfig::Realtime(Box::new(v))
    }
}

impl vstd::std_specs::convert::FromSpecImpl<RealtimeSessionCreateRequest> for RealtimeSessionConfig {
    open spec fn obeys_from_spec() -> bool {
        true
    }

    open spec fn from_spec(v: RealtimeSessionCreateRequest) -> Self {
        RealtimeSessionConfig::Realtime(Box::new(v))
    }
}

impl From<RealtimeTranscriptionSessionCreateRequest> for RealtimeSessionConfig {
    fn from(v: RealtimeTranscriptionSessionCreateRequest) -> (r: Self) {
        RealtimeSessionConfig::Transcription(Box::new(v))
    }
}

impl vstd::std_specs::convert::FromSpecImpl<RealtimeTranscriptionSessionCreateRequest> for RealtimeSessionConfig {
    open spec fn obeys_from_spec() -> bool {
        true
    }

    open spec fn from_spec(v: RealtimeTranscriptionSessionCreateRequest) -> Self {
        RealtimeSessionConfig::Transcription(Box::new(v))
    }
}

} // verus!
