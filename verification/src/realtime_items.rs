//! Realtime conversation items, their content parts, and the response and
//! usage resources that the server reports.
use vstd::prelude::*;
use crate::json::{ExtraFields, Json, JsonValue, obj_get};
use crate::realtime::{RealtimeAudio, UnknownRealtimeObject, discriminator_of, object_discriminator};
use crate::realtime_enums::{
    RealtimeAssistantContentType, RealtimeClientSecretExpirationAnchor, RealtimeImageDetail,
    RealtimeItemStatus, RealtimeReasoningEffort, RealtimeResponseContentType,
    RealtimeResponseStatusDetailsType, RealtimeResponseStopReason, RealtimeSystemContentType,
    RealtimeUserContentType,
};
use crate::scalar::JsonText;
use crate::text::chars_eq;
use crate::wire::{Nullable, Omittable};

verus! {

broadcast use crate::json::lemma_value_view;

/// Reasoning settings of a Realtime session or response.
#[derive(Clone, Debug)]
pub struct RealtimeReasoning {
    pub effort: Omittable<RealtimeReasoningEffort>,
    pub extra: ExtraFields,
}

impl Default for RealtimeReasoning {
    fn default() -> (r: Self)
        ensures
            r.effort is Omitted,
            r.extra@ == Seq::<(Seq<char>, Json)>::empty(),
    {
        RealtimeReasoning {
            effort: Omittable::Omitted,
            extra: ExtraFields::new(),
        }
    }
}

impl RealtimeReasoning {
    /// Members not modelled here, kept as received.
    pub fn extra_fields(&self) -> (r: &ExtraFields)
        ensures
            r@ == self.extra@,
    {
        &self.extra
    }
}

/// An output-token limit, or no limit (wire string `"inf"`).
#[derive(Debug, Clone, Copy, PartialEq, Eq, Structural)]
pub enum RealtimeMaxOutputTokens {
    Limited(i64),
    Unlimited,
}

/// Custom token limits of retention-ratio truncation.
#[derive(Clone, Debug)]
pub struct RealtimeTruncationTokenLimits {
    pub post_instructions: Omittable<i64>,
    pub extra: ExtraFields,
}

impl Default for RealtimeTruncationTokenLimits {
    fn default() -> (r: Self)
        ensures
            r.post_instructions is Omitted,
            r.extra@ == Seq::<(Seq<char>, Json)>::empty(),
    {
        RealtimeTruncationTokenLimits {
            post_instructions: Omittable::Omitted,
            extra: ExtraFields::new(),
        }
    }
}

impl RealtimeTruncationTokenLimits {
    /// Members not modelled here, kept as received.
    pub fn extra_fields(&self) -> (r: &ExtraFields)
        ensures
            r@ == self.extra@,
    {
        &self.extra
    }
}

/// Forces one named function tool.
#[derive(Clone, Debug)]
pub struct RealtimeFunctionToolChoice {
    pub name: String,
    pub extra: ExtraFields,
}

impl RealtimeFunctionToolChoice {
    /// Forces the function `name`.
    pub fn new(name: &str) -> (r: Self)
        ensures
            r.name@ == name@,
            r.extra@ == Seq::<(Seq<char>, Json)>::empty(),
    {
        RealtimeFunctionToolChoice { name: name.to_owned(), extra: ExtraFields::new() }
    }

    /// Members not modelled here, kept as received.
    pub fn extra_fields(&self) -> (r: &ExtraFields)
        ensures
            r@ == self.extra@,
    {
        &self.extra
    }
}

/// Forces one MCP server, or one tool on it.
#[derive(Clone, Debug)]
pub struct RealtimeMcpToolChoice {
    pub server_label: String,
    pub name: Omittable<Nullable<String>>,
    pub extra: ExtraFields,
}

impl RealtimeMcpToolChoice {
    /// Forces the MCP server `server_label`.
    pub fn new(server_label: &str) -> (r: Self)
        ensures
            r.server_label@ == server_label@,
            r.name is Omitted,
            r.extra@ == Seq::<(Seq<char>, Json)>::empty(),
    {
        RealtimeMcpToolChoice {
            server_label: server_label.to_owned(),
            name: Omittable::Omitted,
            extra: ExtraFields::new(),
        }
    }

    /// Narrows the choice to the tool `name` on that server.
    pub fn name(self, name: &str) -> (r: Self)
        ensures
            r.name matches Omittable::Value(Nullable::Value(n)) && n@ == name@,
            r.server_label == self.server_label,
            r.extra@ == self.extra@,
    {
        RealtimeMcpToolChoice {
            server_label: self.server_label,
            name: Omittable::Value(Nullable::Value(name.to_owned())),
            extra: self.extra,
        }
    }

    /// Members not modelled here, kept as received.
    pub fn extra_fields(&self) -> (r: &ExtraFields)
        ensures
            r@ == self.extra@,
    {
        &self.extra
    }
}

/// One content part of a system message.
#[derive(Clone, Debug)]
pub struct RealtimeSystemContentPart {
    /// The `type` member.
    pub kind: Omittable<RealtimeSystemContentType>,
    pub text: Omittable<String>,
    pub extra: ExtraFields,
}

impl Default for RealtimeSystemContentPart {
    fn default() -> (r: Self)
        ensures
            r.kind is Omitted,
            r.text is Omitted,
            r.extra@ == Seq::<(Seq<char>, Json)>::empty(),
    {
        RealtimeSystemContentPart {
            kind: Omittable::Omitted,
            text: Omittable::Omitted,
            extra: ExtraFields::new(),
        }
    }
}

impl RealtimeSystemContentPart {
    /// An `input_text` part.
    pub fn text(text: &str) -> (r: Self)
        ensures
            r.kind == Omittable::Value(RealtimeSystemContentType::InputText),
            r.text matches Omittable::Value(t) && t@ == text@,
            r.extra@ == Seq::<(Seq<char>, Json)>::empty(),
    {
        RealtimeSystemContentPart {
            kind: Omittable::Value(RealtimeSystemContentType::InputText),
            text: Omittable::Value(text.to_owned()),
            extra: ExtraFields::new(),
        }
    }

    /// Members not modelled here, kept as received.
    pub fn extra_fields(&self) -> (r: &ExtraFields)
        ensures
            r@ == self.extra@,
    {
        &self.extra
    }
}

/// One content part of a user message.
#[derive(Clone)]
pub struct RealtimeUserContentPart {
    /// The `type` member.
    pub kind: Omittable<RealtimeUserContentType>,
    pub text: Omittable<String>,
    pub audio: Omittable<RealtimeAudio>,
    pub image_url: Omittable<String>,
    pub detail: Omittable<RealtimeImageDetail>,
    pub transcript: Omittable<String>,
    pub extra: ExtraFields,
}

impl Default for RealtimeUserContentPart {
    fn default() -> (r: Self)
        ensures
            r.kind is Omitted,
            r.text is Omitted,
            r.audio is Omitted,
            r.image_url is Omitted,
            r.detail is Omitted,
            r.transcript is Omitted,
            r.extra@ == Seq::<(Seq<char>, Json)>::empty(),
    {
        RealtimeUserContentPart {
            kind: Omittable::Omitted,
            text: Omittable::Omitted,
            audio: Omittable::Omitted,
            image_url: Omittable::Omitted,
            detail: Omittable::Omitted,
            transcript: Omittable::Omitted,
            extra: ExtraFields::new(),
        }
    }
}

impl RealtimeUserContentPart {
    /// An `input_text` part.
    pub fn text(text: &str) -> (r: Self)
        ensures
            r.kind == Omittable::Value(RealtimeUserContentType::InputText),
            r.text matches Omittable::Value(t) && t@ == text@,
            r.audio is Omitted,
            r.image_url is Omitted,
            r.detail is Omitted,
            r.transcript is Omitted,
            r.extra@ == Seq::<(Seq<char>, Json)>::empty(),
    {
        RealtimeUserContentPart {
            kind: Omittable::Value(RealtimeUserContentType::InputText),
            text: Omittable::Value(text.to_owned()),
            audio: Omittable::Omitted,
            image_url: Omittable::Omitted,
            detail: Omittable::Omitted,
            transcript: Omittable::Omitted,
            extra: ExtraFields::new(),
        }
    }

    /// An `input_audio` part holding raw audio bytes.
    pub fn audio(audio: Vec<u8>) -> (r: Self)
        ensures
            r.kind == Omittable::Value(RealtimeUserContentType::InputAudio),
            r.audio matches Omittable::Value(a) && a@ == audio@,
            r.text is Omitted,
            r.image_url is Omitted,
            r.detail is Omitted,
            r.transcript is Omitted,
            r.extra@ == Seq::<(Seq<char>, Json)>::empty(),
    {
        RealtimeUserContentPart {
            kind: Omittable::Value(RealtimeUserContentType::InputAudio),
            audio: Omittable::Value(RealtimeAudio::new(audio)),
            text: Omittable::Omitted,
            image_url: Omittable::Omitted,
            detail: Omittable::Omitted,
            transcript: Omittable::Omitted,
            extra: ExtraFields::new(),
        }
    }

    /// An `input_image` part from an image URL (a data URI).
    pub fn image(image_url: &str) -> (r: Self)
        ensures
            r.kind == Omittable::Value(RealtimeUserContentType::InputImage),
            r.image_url matches Omittable::Value(u) && u@ == image_url@,
            r.text is Omitted,
            r.audio is Omitted,
            r.detail is Omitted,
            r.transcript is Omitted,
            r.extra@ == Seq::<(Seq<char>, Json)>::empty(),
    {
        RealtimeUserContentPart {
            kind: Omittable::Value(RealtimeUserContentType::InputImage),
            image_url: Omittable::Value(image_url.to_owned()),
            text: Omittable::Omitted,
            audio: Omittable::Omitted,
            detail: Omittable::Omitted,
            transcript: Omittable::Omitted,
            extra: ExtraFields::new(),
        }
    }

    /// Members not modelled here, kept as received.
    pub fn extra_fields(&self) -> (r: &ExtraFields)
        ensures
            r@ == self.extra@,
    {
        &self.extra
    }
}

/// One content part of an assistant message.
#[derive(Clone)]
pub struct RealtimeAssistantContentPart {
    /// The `type` member.
    pub kind: Omittable<RealtimeAssistantContentType>,
    pub text: Omittable<String>,
    pub audio: Omittable<RealtimeAudio>,
    pub transcript: Omittable<String>,
    pub extra: ExtraFields,
}

impl Default for RealtimeAssistantContentPart {
    fn default() -> (r: Self)
        ensures
            r.kind is Omitted,
            r.text is Omitted,
            r.audio is Omitted,
            r.transcript is Omitted,
            r.extra@ == Seq::<(Seq<char>, Json)>::empty(),
    {
        RealtimeAssistantContentPart {
            kind: Omittable::Omitted,
            text: Omittable::Omitted,
            audio: Omittable::Omitted,
            transcript: Omittable::Omitted,
            extra: ExtraFields::new(),
        }
    }
}

impl RealtimeAssistantContentPart {
    /// Members not modelled here, kept as received.
    pub fn extra_fields(&self) -> (r: &ExtraFields)
        ensures
            r@ == self.extra@,
    {
        &self.extra
    }
}

/// A system message in a Realtime conversation.
#[derive(Clone)]
pub struct RealtimeConversationItemMessageSystem {
    pub id: Omittable<String>,
    pub object: Omittable<String>,
    pub status: Omittable<RealtimeItemStatus>,
    pub content: Vec<RealtimeSystemContentPart>,
    pub extra: ExtraFields,
}

impl RealtimeConversationItemMessageSystem {
    /// A system message with `content`.
    pub fn new(content: Vec<RealtimeSystemContentPart>) -> (r: Self)
        ensures
            r.id is Omitted,
            r.object is Omitted,
            r.status is Omitted,
            r.content == content,
            r.extra@ == Seq::<(Seq<char>, Json)>::empty(),
    {
        RealtimeConversationItemMessageSystem {
            id: Omittable::Omitted,
            object: Omittable::Omitted,
            status: Omittable::Omitted,
            content,
            extra: ExtraFields::new(),
        }
    }

    /// Members not modelled here, kept as received.
    pub fn extra_fields(&self) -> (r: &ExtraFields)
        ensures
            r@ == self.extra@,
    {
        &self.extra
    }
}

/// A user message in a Realtime conversation.
#[derive(Clone)]
pub struct RealtimeConversationItemMessageUser {
    pub id: Omittable<String>,
    pub object: Omittable<String>,
    pub status: Omittable<RealtimeItemStatus>,
    pub content: Vec<RealtimeUserContentPart>,
    pub extra: ExtraFields,
}

impl RealtimeConversationItemMessageUser {
    /// A user message with `content`.
    pub fn new(content: Vec<RealtimeUserContentPart>) -> (r: Self)
        ensures
            r.id is Omitted,
            r.object is Omitted,
            r.status is Omitted,
            r.content == content,
            r.extra@ == Seq::<(Seq<char>, Json)>::empty(),
    {
        RealtimeConversationItemMessageUser {
            id: Omittable::Omitted,
            object: Omittable::Omitted,
            status: Omittable::Omitted,
            content,
            extra: ExtraFields::new(),
        }
    }

    /// Members not modelled here, kept as received.
    pub fn extra_fields(&self) -> (r: &ExtraFields)
        ensures
            r@ == self.extra@,
    {
        &self.extra
    }
}

/// An assistant message in a Realtime conversation.
#[derive(Clone)]
pub struct RealtimeConversationItemMessageAssistant {
    pub id: Omittable<String>,
    pub object: Omittable<String>,
    pub status: Omittable<RealtimeItemStatus>,
    pub content: Vec<RealtimeAssistantContentPart>,
    pub extra: ExtraFields,
}

impl RealtimeConversationItemMessageAssistant {
    /// Members not modelled here, kept as received.
    pub fn extra_fields(&self) -> (r: &ExtraFields)
        ensures
            r@ == self.extra@,
    {
        &self.extra
    }
}

/// A function call in a Realtime conversation.
#[derive(Debug)]
pub struct RealtimeConversationItemFunctionCall {
    pub id: Omittable<String>,
    pub object: Omittable<String>,
    pub status: Omittable<RealtimeItemStatus>,
    pub call_id: Omittable<String>,
    pub name: String,
    /// The complete JSON text of the arguments.
    pub arguments: JsonText,
    pub extra: ExtraFields,
}

impl RealtimeConversationItemFunctionCall {
    /// A call of `name` with the JSON text `arguments`.
    pub fn new(name: &str, arguments: JsonText) -> (r: Self)
        ensures
            r.id is Omitted,
            r.object is Omitted,
            r.status is Omitted,
            r.call_id is Omitted,
            r.name@ == name@,
            r.arguments@ == arguments@,
            r.extra@ == Seq::<(Seq<char>, Json)>::empty(),
    {
        RealtimeConversationItemFunctionCall {
            id: Omittable::Omitted,
            object: Omittable::Omitted,
            status: Omittable::Omitted,
            call_id: Omittable::Omitted,
            name: name.to_owned(),
            arguments,
            extra: ExtraFields::new(),
        }
    }

    /// Members not modelled here, kept as received.
    pub fn extra_fields(&self) -> (r: &ExtraFields)
        ensures
            r@ == self.extra@,
    {
        &self.extra
    }
}

/// The output of an earlier function call.
#[derive(Clone, Debug)]
pub struct RealtimeConversationItemFunctionCallOutput {
    pub id: Omittable<String>,
    pub object: Omittable<String>,
    pub status: Omittable<RealtimeItemStatus>,
    pub call_id: String,
    pub output: String,
    pub extra: ExtraFields,
}

impl RealtimeConversationItemFunctionCallOutput {
    /// The output `output` of the call `call_id`.
    pub fn new(call_id: &str, output: &str) -> (r: Self)
        ensures
            r.id is Omitted,
            r.object is Omitted,
            r.status is Omitted,
            r.call_id@ == call_id@,
            r.output@ == output@,
            r.extra@ == Seq::<(Seq<char>, Json)>::empty(),
    {
        RealtimeConversationItemFunctionCallOutput {
            id: Omittable::Omitted,
            object: Omittable::Omitted,
            status: Omittable::Omitted,
            call_id: call_id.to_owned(),
            output: output.to_owned(),
            extra: ExtraFields::new(),
        }
    }

    /// Members not modelled here, kept as received.
    pub fn extra_fields(&self) -> (r: &ExtraFields)
        ensures
            r@ == self.extra@,
    {
        &self.extra
    }
}

/// The client's approval or rejection of an MCP request.
#[derive(Clone, Debug)]
pub struct RealtimeMcpApprovalResponse {
    pub id: String,
    pub approval_request_id: String,
    pub approve: bool,
    pub reason: Omittable<Nullable<String>>,
    pub extra: ExtraFields,
}

impl RealtimeMcpApprovalResponse {
    /// Approves (`approve`) or rejects the request `approval_request_id`.
    pub fn new(id: &str, approval_request_id: &str, approve: bool) -> (r: Self)
        ensures
            r.id@ == id@,
            r.approval_request_id@ == approval_request_id@,
            r.approve == approve,
            r.reason is Omitted,
            r.extra@ == Seq::<(Seq<char>, Json)>::empty(),
    {
        RealtimeMcpApprovalResponse {
            id: id.to_owned(),
            approval_request_id: approval_request_id.to_owned(),
            approve,
            reason: Omittable::Omitted,
            extra: ExtraFields::new(),
        }
    }

    /// Members not modelled here, kept as received.
    pub fn extra_fields(&self) -> (r: &ExtraFields)
        ensures
            r@ == self.extra@,
    {
        &self.extra
    }
}

/// One tool of a Realtime `mcp_list_tools` item.
#[derive(Clone, Debug)]
pub struct RealtimeMcpListedTool {
    pub name: String,
    pub description: Omittable<Nullable<String>>,
    pub input_schema: JsonValue,
    pub annotations: Omittable<Nullable<JsonValue>>,
    pub extra: ExtraFields,
}

impl RealtimeMcpListedTool {
    /// Members not modelled here, kept as received.
    pub fn extra_fields(&self) -> (r: &ExtraFields)
        ensures
            r@ == self.extra@,
    {
        &self.extra
    }
}

/// The tools listed by a Realtime MCP server.
#[derive(Clone, Debug)]
pub struct RealtimeMcpListTools {
    pub id: Omittable<String>,
    pub server_label: String,
    pub tools: Vec<RealtimeMcpListedTool>,
    pub extra: ExtraFields,
}

impl RealtimeMcpListTools {
    /// Members not modelled here, kept as received.
    pub fn extra_fields(&self) -> (r: &ExtraFields)
        ensures
            r@ == self.extra@,
    {
        &self.extra
    }
}

/// An MCP protocol failure (`protocol_error`).
#[derive(Clone, Debug)]
pub struct RealtimeMcpProtocolError {
    pub code: i64,
    pub message: String,
    pub extra: ExtraFields,
}

impl RealtimeMcpProtocolError {
    /// Members not modelled here, kept as received.
    pub fn extra_fields(&self) -> (r: &ExtraFields)
        ensures
            r@ == self.extra@,
    {
        &self.extra
    }
}

/// An MCP tool execution failure (`tool_execution_error`).
#[derive(Clone, Debug)]
pub struct RealtimeMcpToolExecutionError {
    pub message: String,
    pub extra: ExtraFields,
}

impl RealtimeMcpToolExecutionError {
    /// Members not modelled here, kept as received.
    pub fn extra_fields(&self) -> (r: &ExtraFields)
        ensures
            r@ == self.extra@,
    {
        &self.extra
    }
}

/// An HTTP failure of an MCP server (`http_error`).
#[derive(Clone, Debug)]
pub struct RealtimeMcpHttpError {
    pub code: i64,
    pub message: String,
    pub extra: ExtraFields,
}

impl RealtimeMcpHttpError {
    /// Members not modelled here, kept as received.
    pub fn extra_fields(&self) -> (r: &ExtraFields)
        ensures
            r@ == self.extra@,
    {
        &self.extra
    }
}

/// The error of a Realtime MCP tool call.
#[derive(Clone, Debug)]
pub enum RealtimeMcpError {
    Protocol(RealtimeMcpProtocolError),
    ToolExecution(RealtimeMcpToolExecutionError),
    Http(RealtimeMcpHttpError),
    Unknown(UnknownRealtimeObject),
}

/// A Realtime MCP tool call (`mcp_call`).
#[derive(Debug)]
pub struct RealtimeMcpToolCall {
    pub id: String,
    pub server_label: String,
    pub name: String,
    /// The JSON text of the arguments.
    pub arguments: JsonText,
    pub approval_request_id: Omittable<Nullable<String>>,
    pub output: Omittable<Nullable<String>>,
    pub error: Omittable<Nullable<RealtimeMcpError>>,
    pub extra: ExtraFields,
}

impl RealtimeMcpToolCall {
    /// Members not modelled here, kept as received.
    pub fn extra_fields(&self) -> (r: &ExtraFields)
        ensures
            r@ == self.extra@,
    {
        &self.extra
    }
}

/// An MCP approval request made by the model.
#[derive(Debug)]
pub struct RealtimeMcpApprovalRequest {
    pub id: String,
    pub server_label: String,
    pub name: String,
    /// The JSON text of the arguments.
    pub arguments: JsonText,
    pub extra: ExtraFields,
}

impl RealtimeMcpApprovalRequest {
    /// Members not modelled here, kept as received.
    pub fn extra_fields(&self) -> (r: &ExtraFields)
        ensures
            r@ == self.extra@,
    {
        &self.extra
    }
}

/// One item of a Realtime conversation.
pub enum RealtimeConversationItem {
    SystemMessage(RealtimeConversationItemMessageSystem),
    UserMessage(RealtimeConversationItemMessageUser),
    AssistantMessage(RealtimeConversationItemMessageAssistant),
    FunctionCall(RealtimeConversationItemFunctionCall),
    FunctionCallOutput(RealtimeConversationItemFunctionCallOutput),
    McpApprovalResponse(RealtimeMcpApprovalResponse),
    McpListTools(RealtimeMcpListTools),
    McpCall(RealtimeMcpToolCall),
    McpApprovalRequest(RealtimeMcpApprovalRequest),
    Unknown(UnknownRealtimeObject),
}

/// Error details of a failed Realtime response.
#[derive(Clone, Debug)]
pub struct RealtimeResponseFailure {
    /// The `type` member.
    pub kind: Omittable<String>,
    pub code: Omittable<Nullable<String>>,
    pub extra: ExtraFields,
}

impl Default for RealtimeResponseFailure {
    fn default() -> (r: Self)
        ensures
            r.kind is Omitted,
            r.code is Omitted,
            r.extra@ == Seq::<(Seq<char>, Json)>::empty(),
    {
        RealtimeResponseFailure {
            kind: Omittable::Omitted,
            code: Omittable::Omitted,
            extra: ExtraFields::new(),
        }
    }
}

impl RealtimeResponseFailure {
    /// Members not modelled here, kept as received.
    pub fn extra_fields(&self) -> (r: &ExtraFields)
        ensures
            r@ == self.extra@,
    {
        &self.extra
    }
}

/// More status details of a Realtime response.
#[derive(Clone, Debug)]
pub struct RealtimeResponseStatusDetails {
    /// The `type` member.
    pub kind: Omittable<RealtimeResponseStatusDetailsType>,
    pub reason: Omittable<RealtimeResponseStopReason>,
    pub error: Omittable<RealtimeResponseFailure>,
    pub extra: ExtraFields,
}

impl Default for RealtimeResponseStatusDetails {
    fn default() -> (r: Self)
        ensures
            r.kind is Omitted,
            r.reason is Omitted,
            r.error is Omitted,
            r.extra@ == Seq::<(Seq<char>, Json)>::empty(),
    {
        RealtimeResponseStatusDetails {
            kind: Omittable::Omitted,
            reason: Omittable::Omitted,
            error: Omittable::Omitted,
            extra: ExtraFields::new(),
        }
    }
}

impl RealtimeResponseStatusDetails {
    /// Members not modelled here, kept as received.
    pub fn extra_fields(&self) -> (r: &ExtraFields)
        ensures
            r@ == self.extra@,
    {
        &self.extra
    }
}

/// Cached-token breakdown of a Realtime response.
#[derive(Clone, Debug)]
pub struct RealtimeCachedTokenDetails {
    pub text_tokens: Omittable<i64>,
    pub image_tokens: Omittable<i64>,
    pub audio_tokens: Omittable<i64>,
    pub extra: ExtraFields,
}

impl Default for RealtimeCachedTokenDetails {
    fn default() -> (r: Self)
        ensures
            r.text_tokens is Omitted,
            r.image_tokens is Omitted,
            r.audio_tokens is Omitted,
            r.extra@ == Seq::<(Seq<char>, Json)>::empty(),
    {
        RealtimeCachedTokenDetails {
            text_tokens: Omittable::Omitted,
            image_tokens: Omittable::Omitted,
            audio_tokens: Omittable::Omitted,
            extra: ExtraFields::new(),
        }
    }
}

impl RealtimeCachedTokenDetails {
    /// Members not modelled here, kept as received.
    pub fn extra_fields(&self) -> (r: &ExtraFields)
        ensures
            r@ == self.extra@,
    {
        &self.extra
    }
}

/// Input-token breakdown of a Realtime response.
#[derive(Clone, Debug)]
pub struct RealtimeInputTokenDetails {
    pub cached_tokens: Omittable<i64>,
    pub text_tokens: Omittable<i64>,
    pub image_tokens: Omittable<i64>,
    pub audio_tokens: Omittable<i64>,
    pub cached_tokens_details: Omittable<RealtimeCachedTokenDetails>,
    pub extra: ExtraFields,
}

impl Default for RealtimeInputTokenDetails {
    fn default() -> (r: Self)
        ensures
            r.cached_tokens is Omitted,
            r.text_tokens is Omitted,
            r.image_tokens is Omitted,
            r.audio_tokens is Omitted,
            r.cached_tokens_details is Omitted,
            r.extra@ == Seq::<(Seq<char>, Json)>::empty(),
    {
        RealtimeInputTokenDetails {
            cached_tokens: Omittable::Omitted,
            text_tokens: Omittable::Omitted,
            image_tokens: Omittable::Omitted,
            audio_tokens: Omittable::Omitted,
            cached_tokens_details: Omittable::Omitted,
            extra: ExtraFields::new(),
        }
    }
}

impl RealtimeInputTokenDetails {
    /// Members not modelled here, kept as received.
    pub fn extra_fields(&self) -> (r: &ExtraFields)
        ensures
            r@ == self.extra@,
    {
        &self.extra
    }
}

/// Output-token breakdown of a Realtime response.
#[derive(Clone, Debug)]
pub struct RealtimeOutputTokenDetails {
    pub text_tokens: Omittable<i64>,
    pub audio_tokens: Omittable<i64>,
    pub extra: ExtraFields,
}

impl Default for RealtimeOutputTokenDetails {
    fn default() -> (r: Self)
        ensures
            r.text_tokens is Omitted,
            r.audio_tokens is Omitted,
            r.extra@ == Seq::<(Seq<char>, Json)>::empty(),
    {
        RealtimeOutputTokenDetails {
            text_tokens: Omittable::Omitted,
            audio_tokens: Omittable::Omitted,
            extra: ExtraFields::new(),
        }
    }
}

impl RealtimeOutputTokenDetails {
    /// Members not modelled here, kept as received.
    pub fn extra_fields(&self) -> (r: &ExtraFields)
        ensures
            r@ == self.extra@,
    {
        &self.extra
    }
}

/// Token usage of a Realtime response.
#[derive(Clone, Debug)]
pub struct RealtimeResponseUsage {
    pub total_tokens: Omittable<i64>,
    pub input_tokens: Omittable<i64>,
    pub output_tokens: Omittable<i64>,
    pub input_token_details: Omittable<RealtimeInputTokenDetails>,
    pub output_token_details: Omittable<RealtimeOutputTokenDetails>,
    pub extra: ExtraFields,
}

impl Default for RealtimeResponseUsage {
    fn default() -> (r: Self)
        ensures
            r.total_tokens is Omitted,
            r.input_tokens is Omitted,
            r.output_tokens is Omitted,
            r.input_token_details is Omitted,
            r.output_token_details is Omitted,
            r.extra@ == Seq::<(Seq<char>, Json)>::empty(),
    {
        RealtimeResponseUsage {
            total_tokens: Omittable::Omitted,
            input_tokens: Omittable::Omitted,
            output_tokens: Omittable::Omitted,
            input_token_details: Omittable::Omitted,
            output_token_details: Omittable::Omitted,
            extra: ExtraFields::new(),
        }
    }
}

impl RealtimeResponseUsage {
    /// Members not modelled here, kept as received.
    pub fn extra_fields(&self) -> (r: &ExtraFields)
        ensures
            r@ == self.extra@,
    {
        &self.extra
    }
}

/// Input-token details of transcription billing.
#[derive(Clone, Debug)]
pub struct RealtimeTranscriptInputTokenDetails {
    pub text_tokens: Omittable<i64>,
    pub audio_tokens: Omittable<i64>,
    pub extra: ExtraFields,
}

impl Default for RealtimeTranscriptInputTokenDetails {
    fn default() -> (r: Self)
        ensures
            r.text_tokens is Omitted,
            r.audio_tokens is Omitted,
            r.extra@ == Seq::<(Seq<char>, Json)>::empty(),
    {
        RealtimeTranscriptInputTokenDetails {
            text_tokens: Omittable::Omitted,
            audio_tokens: Omittable::Omitted,
            extra: ExtraFields::new(),
        }
    }
}

impl RealtimeTranscriptInputTokenDetails {
    /// Members not modelled here, kept as received.
    pub fn extra_fields(&self) -> (r: &ExtraFields)
        ensures
            r@ == self.extra@,
    {
        &self.extra
    }
}

/// Token-billed transcription usage (`tokens`).
#[derive(Clone, Debug)]
pub struct RealtimeTranscriptTokenUsage {
    pub input_tokens: i64,
    pub input_token_details: Omittable<RealtimeTranscriptInputTokenDetails>,
    pub output_tokens: i64,
    pub total_tokens: i64,
    pub extra: ExtraFields,
}

impl RealtimeTranscriptTokenUsage {
    /// Members not modelled here, kept as received.
    pub fn extra_fields(&self) -> (r: &ExtraFields)
        ensures
            r@ == self.extra@,
    {
        &self.extra
    }
}

/// Optional properties of a transcription failure.
#[derive(Clone, Debug)]
pub struct RealtimeTranscriptionError {
    /// The `type` member.
    pub kind: Omittable<String>,
    pub code: Omittable<Nullable<String>>,
    pub message: Omittable<String>,
    pub param: Omittable<Nullable<String>>,
    pub extra: ExtraFields,
}

impl Default for RealtimeTranscriptionError {
    fn default() -> (r: Self)
        ensures
            r.kind is Omitted,
            r.code is Omitted,
            r.message is Omitted,
            r.param is Omitted,
            r.extra@ == Seq::<(Seq<char>, Json)>::empty(),
    {
        RealtimeTranscriptionError {
            kind: Omittable::Omitted,
            code: Omittable::Omitted,
            message: Omittable::Omitted,
            param: Omittable::Omitted,
            extra: ExtraFields::new(),
        }
    }
}

impl RealtimeTranscriptionError {
    /// Members not modelled here, kept as received.
    pub fn extra_fields(&self) -> (r: &ExtraFields)
        ensures
            r@ == self.extra@,
    {
        &self.extra
    }
}

/// The error of a Realtime `error` server event.
#[derive(Clone, Debug)]
pub struct RealtimeErrorDetails {
    /// The `type` member.
    pub kind: String,
    pub code: Omittable<Nullable<String>>,
    pub message: String,
    pub param: Omittable<Nullable<String>>,
    pub event_id: Omittable<Nullable<String>>,
    /// Header names and values, in name order.
    pub headers: Omittable<Vec<(String, String)>>,
    pub extra: ExtraFields,
}

impl RealtimeErrorDetails {
    /// Members not modelled here, kept as received.
    pub fn extra_fields(&self) -> (r: &ExtraFields)
        ensures
            r@ == self.extra@,
    {
        &self.extra
    }
}

/// A Realtime conversation resource.
#[derive(Clone, Debug)]
pub struct RealtimeConversation {
    pub id: Omittable<String>,
    pub object: Omittable<String>,
    pub extra: ExtraFields,
}

impl Default for RealtimeConversation {
    fn default() -> (r: Self)
        ensures
            r.id is Omitted,
            r.object is Omitted,
            r.extra@ == Seq::<(Seq<char>, Json)>::empty(),
    {
        RealtimeConversation {
            id: Omittable::Omitted,
            object: Omittable::Omitted,
            extra: ExtraFields::new(),
        }
    }
}

impl RealtimeConversation {
    /// Members not modelled here, kept as received.
    pub fn extra_fields(&self) -> (r: &ExtraFields)
        ensures
            r@ == self.extra@,
    {
        &self.extra
    }
}

/// A content part of the response content lifecycle events.
#[derive(Clone)]
pub struct RealtimeResponseContentPart {
    /// The `type` member.
    pub kind: Omittable<RealtimeResponseContentType>,
    pub text: Omittable<String>,
    pub audio: Omittable<RealtimeAudio>,
    pub transcript: Omittable<String>,
    pub extra: ExtraFields,
}

impl Default for RealtimeResponseContentPart {
    fn default() -> (r: Self)
        ensures
            r.kind is Omitted,
            r.text is Omitted,
            r.audio is Omitted,
            r.transcript is Omitted,
            r.extra@ == Seq::<(Seq<char>, Json)>::empty(),
    {
        RealtimeResponseContentPart {
            kind: Omittable::Omitted,
            text: Omittable::Omitted,
            audio: Omittable::Omitted,
            transcript: Omittable::Omitted,
            extra: ExtraFields::new(),
        }
    }
}

impl RealtimeResponseContentPart {
    /// Members not modelled here, kept as received.
    pub fn extra_fields(&self) -> (r: &ExtraFields)
        ensures
            r@ == self.extra@,
    {
        &self.extra
    }
}

/// Lifetime of a Realtime client secret; the `10..=7200` range is checked by the request's validation, not on decoding.
#[derive(Clone, Debug)]
pub struct RealtimeClientSecretExpiration {
    pub anchor: Omittable<RealtimeClientSecretExpirationAnchor>,
    pub seconds: Omittable<i64>,
    pub extra: ExtraFields,
}

impl Default for RealtimeClientSecretExpiration {
    fn default() -> (r: Self)
        ensures
            r.anchor is Omitted,
            r.seconds is Omitted,
            r.extra@ == Seq::<(Seq<char>, Json)>::empty(),
    {
        RealtimeClientSecretExpiration {
            anchor: Omittable::Omitted,
            seconds: Omittable::Omitted,
            extra: ExtraFields::new(),
        }
    }
}

impl RealtimeClientSecretExpiration {
    /// Members not modelled here, kept as received.
    pub fn extra_fields(&self) -> (r: &ExtraFields)
        ensures
            r@ == self.extra@,
    {
        &self.extra
    }
}

/// A DTMF key received from a SIP call.
#[derive(Clone, Debug)]
pub struct RealtimeServerEventInputAudioBufferDtmfEventReceived {
    pub event: String,
    pub received_at: i64,
    pub extra: ExtraFields,
}

impl RealtimeServerEventInputAudioBufferDtmfEventReceived {
    /// Members not modelled here, kept as received.
    pub fn extra_fields(&self) -> (r: &ExtraFields)
        ensures
            r@ == self.extra@,
    {
        &self.extra
    }
}

/// Which typed item a decoded conversation item becomes.
#[derive(Debug, Clone, Copy, PartialEq, Eq, Structural)]
pub enum RealtimeConversationItemKind {
    SystemMessage,
    UserMessage,
    AssistantMessage,
    FunctionCall,
    FunctionCallOutput,
    McpApprovalResponse,
    McpListTools,
    McpCall,
    McpApprovalRequest,
    /// A future tag, or a message with a future role: kept whole.
    Unknown,
}

/// The item kind of a message by its `role`.
pub open spec fn message_kind_of(role: Seq<char>) -> RealtimeConversationItemKind {
    if role == "system"@ {
        RealtimeConversationItemKind::SystemMessage
    } else if role == "user"@ {
        RealtimeConversationItemKind::UserMessage
    } else if role == "assistant"@ {
        RealtimeConversationItemKind::AssistantMessage
    } else {
        RealtimeConversationItemKind::Unknown
    }
}

/// The item kind of any other `type` tag.
pub open spec fn tagged_item_kind_of(tag: Seq<char>) -> RealtimeConversationItemKind {
    if tag == "function_call"@ {
        RealtimeConversationItemKind::FunctionCall
    } else if tag == "function_call_output"@ {
        RealtimeConversationItemKind::FunctionCallOutput
    } else if tag == "mcp_approval_response"@ {
        RealtimeConversationItemKind::McpApprovalResponse
    } else if tag == "mcp_list_tools"@ {
        RealtimeConversationItemKind::McpListTools
    } else if tag == "mcp_call"@ {
        RealtimeConversationItemKind::McpCall
    } else if tag == "mcp_approval_request"@ {
        RealtimeConversationItemKind::McpApprovalRequest
    } else {
        RealtimeConversationItemKind::Unknown
    }
}

/// A message's `role` selects its item: `system`, `user` and `assistant`
/// messages; any other role is kept whole.
pub proof fn law_message_roles_select_message_items(tag: Seq<char>)
    ensures
        tag == "system"@ ==> message_kind_of(tag) == RealtimeConversationItemKind::SystemMessage,
        tag == "user"@ ==> message_kind_of(tag) == RealtimeConversationItemKind::UserMessage,
        tag == "assistant"@ ==> message_kind_of(tag) == RealtimeConversationItemKind::AssistantMessage,
        !(tag == "system"@ || tag == "user"@ || tag == "assistant"@) ==> message_kind_of(tag) == RealtimeConversationItemKind::Unknown,
{
    reveal_strlit("system");
    reveal_strlit("user");
    reveal_strlit("assistant");
    assert("system"@.len() == 6);
    assert("user"@.len() == 4);
    assert("assistant"@.len() == 9);
}

/// Each `type` tag of a non-message conversation item selects the item the
/// schema pairs with it; any other tag is kept whole.
pub proof fn law_item_tags_select_schema_variants(tag: Seq<char>)
    ensures
        tag == "function_call"@ ==> tagged_item_kind_of(tag) == RealtimeConversationItemKind::FunctionCall,
        tag == "function_call_output"@ ==> tagged_item_kind_of(tag) == RealtimeConversationItemKind::FunctionCallOutput,
        tag == "mcp_approval_response"@ ==> tagged_item_kind_of(tag) == RealtimeConversationItemKind::McpApprovalResponse,
        tag == "mcp_list_tools"@ ==> tagged_item_kind_of(tag) == RealtimeConversationItemKind::McpListTools,
        tag == "mcp_call"@ ==> tagged_item_kind_of(tag) == RealtimeConversationItemKind::McpCall,
        tag == "mcp_approval_request"@ ==> tagged_item_kind_of(tag) == RealtimeConversationItemKind::McpApprovalRequest,
        !(tag == "function_call"@ || tag == "function_call_output"@ || tag == "mcp_approval_response"@ || tag == "mcp_list_tools"@ || tag == "mcp_call"@ || tag == "mcp_approval_request"@) ==> tagged_item_kind_of(tag) == RealtimeConversationItemKind::Unknown,
{
    reveal_strlit("function_call");
    reveal_strlit("function_call_output");
    reveal_strlit("mcp_approval_response");
    reveal_strlit("mcp_list_tools");
    reveal_strlit("mcp_call");
    reveal_strlit("mcp_approval_request");
    assert("function_call"@.len() == 13);
    assert("function_call_output"@.len() == 20);
    assert("mcp_approval_response"@.len() == 21);
    assert("mcp_list_tools"@.len() == 14);
    assert("mcp_call"@.len() == 8);
    assert("mcp_approval_request"@.len() == 20);
    assert("function_call_output"@[0] != "mcp_approval_request"@[0]);
}

/// How a conversation item is routed: by its `type` tag first, and a
/// `message` then by its string `role`.
pub open spec fn item_kind_of(v: Json) -> Result<RealtimeConversationItemKind, Seq<char>> {
    match discriminator_of(v) {
        Err(m) => Err(m),
        Ok(tag) => if tag == "message"@ {
            match v {
                Json::Object(e) => match obj_get(e, "role"@) {
                    Some(Json::Str(role)) => Ok(message_kind_of(role)),
                    _ => Err("Realtime message is missing string `role`"@),
                },
                _ => Err("Realtime message is missing string `role`"@),
            }
        } else {
            Ok(tagged_item_kind_of(tag))
        },
    }
}

/// Routes a decoded conversation item to the kind it decodes as.
pub fn conversation_item_kind(value: &JsonValue) -> (r: Result<
    RealtimeConversationItemKind,
    &'static str,
>)
    ensures
        match r {
            Ok(k) => item_kind_of(value@) == Ok::<RealtimeConversationItemKind, Seq<char>>(k),
            Err(m) => item_kind_of(value@) == Err::<RealtimeConversationItemKind, Seq<char>>(m@),
        },
{
    let tag = match object_discriminator(value) {
        Ok(t) => t,
        Err(m) => {
            return Err(m);
        },
    };
    proof {
        reveal_strlit("message");
        reveal_strlit("system");
        reveal_strlit("user");
        reveal_strlit("assistant");
        reveal_strlit("function_call");
        reveal_strlit("function_call_output");
        reveal_strlit("mcp_approval_response");
        reveal_strlit("mcp_list_tools");
        reveal_strlit("mcp_call");
        reveal_strlit("mcp_approval_request");
        reveal_strlit("Realtime message is missing string `role`");
    }
    if chars_eq(tag, "message") {
        let role = match value {
            JsonValue::Object(o) => match o.get("role") {
                Some(JsonValue::String(role)) => role.as_str(),
                _ => {
                    return Err("Realtime message is missing string `role`");
                },
            },
            _ => {
                return Err("Realtime message is missing string `role`");
            },
        };
        if chars_eq(role, "system") {
            Ok(RealtimeConversationItemKind::SystemMessage)
        } else if chars_eq(role, "user") {
            Ok(RealtimeConversationItemKind::UserMessage)
        } else if chars_eq(role, "assistant") {
            Ok(RealtimeConversationItemKind::AssistantMessage)
        } else {
            Ok(RealtimeConversationItemKind::Unknown)
        }
    } else if chars_eq(tag, "function_call") {
        Ok(RealtimeConversationItemKind::FunctionCall)
    } else if chars_eq(tag, "function_call_output") {
        Ok(RealtimeConversationItemKind::FunctionCallOutput)
    } else if chars_eq(tag, "mcp_approval_response") {
        Ok(RealtimeConversationItemKind::McpApprovalResponse)
    } else if chars_eq(tag, "mcp_list_tools") {
        Ok(RealtimeConversationItemKind::McpListTools)
    } else if chars_eq(tag, "mcp_call") {
        Ok(RealtimeConversationItemKind::McpCall)
    } else if chars_eq(tag, "mcp_approval_request") {
        Ok(RealtimeConversationItemKind::McpApprovalRequest)
    } else {
        Ok(RealtimeConversationItemKind::Unknown)
    }
}

impl RealtimeConversationItem {
    /// The kind of this item.
    pub open spec fn kind(&self) -> RealtimeConversationItemKind {
        match self {
            RealtimeConversationItem::SystemMessage(_) => RealtimeConversationItemKind::SystemMessage,
            RealtimeConversationItem::UserMessage(_) => RealtimeConversationItemKind::UserMessage,
            RealtimeConversationItem::AssistantMessage(_) => RealtimeConversationItemKind::AssistantMessage,
            RealtimeConversationItem::FunctionCall(_) => RealtimeConversationItemKind::FunctionCall,
            RealtimeConversationItem::FunctionCallOutput(_) => RealtimeConversationItemKind::FunctionCallOutput,
            RealtimeConversationItem::McpApprovalResponse(_) => RealtimeConversationItemKind::McpApprovalResponse,
            RealtimeConversationItem::McpListTools(_) => RealtimeConversationItemKind::McpListTools,
            RealtimeConversationItem::McpCall(_) => RealtimeConversationItemKind::McpCall,
            RealtimeConversationItem::McpApprovalRequest(_) => RealtimeConversationItemKind::McpApprovalRequest,
            RealtimeConversationItem::Unknown(_) => RealtimeConversationItemKind::Unknown,
        }
    }
}

/// A message is routed by its role, never to another tag's kind, and an
/// item whose tag this crate knows is never kept as unknown unless it is a
/// message with a future role.
pub proof fn law_item_routing_is_strict(v: Json)
    requires
        item_kind_of(v) is Ok,
    ensures
        discriminator_of(v) is Ok,
        discriminator_of(v)->Ok_0 == "message"@ ==> (item_kind_of(v)->Ok_0 is SystemMessage || item_kind_of(v)->Ok_0 is UserMessage || item_kind_of(v)->Ok_0 is AssistantMessage || item_kind_of(v)->Ok_0 is Unknown),
        discriminator_of(v)->Ok_0 == "mcp_call"@ ==> item_kind_of(v)->Ok_0 is McpCall,
        discriminator_of(v)->Ok_0 == "function_call"@ ==> item_kind_of(v)->Ok_0 is FunctionCall,
{
    reveal_strlit("message");
    reveal_strlit("mcp_call");
    reveal_strlit("function_call");
    reveal_strlit("function_call_output");
    reveal_strlit("mcp_approval_response");
    reveal_strlit("mcp_list_tools");
    reveal_strlit("mcp_approval_request");
    let tag = discriminator_of(v)->Ok_0;
    if tag == "mcp_call"@ {
        assert(tag != "message"@) by {
            assert(tag.len() != "message"@.len());
        }
        assert(tag != "function_call"@) by {
            assert(tag.len() != "function_call"@.len());
        }
        assert(tag != "function_call_output"@) by {
            assert(tag.len() != "function_call_output"@.len());
        }
        assert(tag != "mcp_approval_response"@) by {
            assert(tag.len() != "mcp_approval_response"@.len());
        }
        assert(tag != "mcp_list_tools"@) by {
            assert(tag.len() != "mcp_list_tools"@.len());
        }
    }
    if tag == "function_call"@ {
        assert(tag != "message"@) by {
            assert(tag.len() != "message"@.len());
        }
    }
}

} // verus!
