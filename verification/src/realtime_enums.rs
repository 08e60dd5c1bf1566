//! Open string enumerations of the Realtime API: known wire values as
//! variants, any other value kept verbatim.
use vstd::prelude::*;
use crate::text::chars_eq;

verus! {

/// A modality the Realtime model may emit.
#[derive(Debug, Clone)]
pub enum RealtimeOutputModality {
    /// `text`.
    Text,
    /// `audio`.
    Audio,
    /// A value added by the service after this crate was released.
    Unknown(String),
}

/// Each variant of [`RealtimeOutputModality`] stands for the wire value the API pairs
/// with it, and those values are exactly the ones known.
pub proof fn law_realtime_output_modality_wire_values(value: Seq<char>)
    ensures
        RealtimeOutputModality::Text.wire() == "text"@,
        RealtimeOutputModality::Audio.wire() == "audio"@,
        RealtimeOutputModality::is_known_wire(value) <==> (value == "text"@ || value == "audio"@),
{
}

impl RealtimeOutputModality {
    /// The exact string used on the wire.
    pub open spec fn wire(&self) -> Seq<char> {
        match self {
            RealtimeOutputModality::Text => "text"@,
            RealtimeOutputModality::Audio => "audio"@,
            RealtimeOutputModality::Unknown(s) => s@,
        }
    }

    /// Whether `value` is one of the wire values this crate knows.
    pub open spec fn is_known_wire(value: Seq<char>) -> bool {
        value == "text"@ || value == "audio"@
    }

    /// Parses a wire value while retaining unknown strings verbatim.
    pub fn from_raw(value: &str) -> (r: Self)
        ensures
            r.wire() == value@,
            (r is Unknown) == !Self::is_known_wire(value@),
    {
        if chars_eq(value, "text") {
            RealtimeOutputModality::Text
        } else if chars_eq(value, "audio") {
            RealtimeOutputModality::Audio
        } else {
            RealtimeOutputModality::Unknown(value.to_owned())
        }
    }

    /// The exact string used on the wire.
    pub fn as_str(&self) -> (r: &str)
        ensures
            r@ == self.wire(),
    {
        match self {
            RealtimeOutputModality::Text => "text",
            RealtimeOutputModality::Audio => "audio",
            RealtimeOutputModality::Unknown(s) => s.as_str(),
        }
    }

    /// Whether this crate knows the wire value.
    pub fn is_known(&self) -> (r: bool)
        ensures
            r == !(self is Unknown),
    {
        match self {
            RealtimeOutputModality::Unknown(_) => false,
            _ => true,
        }
    }

    /// The raw value, only when it is unknown to this crate.
    pub fn unknown_value(&self) -> (r: Option<&str>)
        ensures
            match self {
                RealtimeOutputModality::Unknown(s) => r matches Some(x) && x@ == s@,
                _ => r is None,
            },
    {
        match self {
            RealtimeOutputModality::Unknown(s) => Some(s.as_str()),
            _ => None,
        }
    }
}

/// String form of Realtime tracing configuration.
#[derive(Debug, Clone)]
pub enum RealtimeTracingMode {
    /// `auto`.
    Auto,
    /// A value added by the service after this crate was released.
    Unknown(String),
}

/// Each variant of [`RealtimeTracingMode`] stands for the wire value the API pairs
/// with it, and those values are exactly the ones known.
pub proof fn law_realtime_tracing_mode_wire_values(value: Seq<char>)
    ensures
        RealtimeTracingMode::Auto.wire() == "auto"@,
        RealtimeTracingMode::is_known_wire(value) <==> (value == "auto"@),
{
}

impl RealtimeTracingMode {
    /// The exact string used on the wire.
    pub open spec fn wire(&self) -> Seq<char> {
        match self {
            RealtimeTracingMode::Auto => "auto"@,
            RealtimeTracingMode::Unknown(s) => s@,
        }
    }

    /// Whether `value` is one of the wire values this crate knows.
    pub open spec fn is_known_wire(value: Seq<char>) -> bool {
        value == "auto"@
    }

    /// Parses a wire value while retaining unknown strings verbatim.
    pub fn from_raw(value: &str) -> (r: Self)
        ensures
            r.wire() == value@,
            (r is Unknown) == !Self::is_known_wire(value@),
    {
        if chars_eq(value, "auto") {
            RealtimeTracingMode::Auto
        } else {
            RealtimeTracingMode::Unknown(value.to_owned())
        }
    }

    /// The exact string used on the wire.
    pub fn as_str(&self) -> (r: &str)
        ensures
            r@ == self.wire(),
    {
        match self {
            RealtimeTracingMode::Auto => "auto",
            RealtimeTracingMode::Unknown(s) => s.as_str(),
        }
    }

    /// Whether this crate knows the wire value.
    pub fn is_known(&self) -> (r: bool)
        ensures
            r == !(self is Unknown),
    {
        match self {
            RealtimeTracingMode::Unknown(_) => false,
            _ => true,
        }
    }

    /// The raw value, only when it is unknown to this crate.
    pub fn unknown_value(&self) -> (r: Option<&str>)
        ensures
            match self {
                RealtimeTracingMode::Unknown(s) => r matches Some(x) && x@ == s@,
                _ => r is None,
            },
    {
        match self {
            RealtimeTracingMode::Unknown(s) => Some(s.as_str()),
            _ => None,
        }
    }
}

/// Anchor used to calculate client-secret expiration.
#[derive(Debug, Clone)]
pub enum RealtimeClientSecretExpirationAnchor {
    /// `created_at`.
    CreatedAt,
    /// A value added by the service after this crate was released.
    Unknown(String),
}

/// Each variant of [`RealtimeClientSecretExpirationAnchor`] stands for the wire value the API pairs
/// with it, and those values are exactly the ones known.
pub proof fn law_realtime_client_secret_expiration_anchor_wire_values(value: Seq<char>)
    ensures
        RealtimeClientSecretExpirationAnchor::CreatedAt.wire() == "created_at"@,
        RealtimeClientSecretExpirationAnchor::is_known_wire(value) <==> (value == "created_at"@),
{
}

impl RealtimeClientSecretExpirationAnchor {
    /// The exact string used on the wire.
    pub open spec fn wire(&self) -> Seq<char> {
        match self {
            RealtimeClientSecretExpirationAnchor::CreatedAt => "created_at"@,
            RealtimeClientSecretExpirationAnchor::Unknown(s) => s@,
        }
    }

    /// Whether `value` is one of the wire values this crate knows.
    pub open spec fn is_known_wire(value: Seq<char>) -> bool {
        value == "created_at"@
    }

    /// Parses a wire value while retaining unknown strings verbatim.
    pub fn from_raw(value: &str) -> (r: Self)
        ensures
            r.wire() == value@,
            (r is Unknown) == !Self::is_known_wire(value@),
    {
        if chars_eq(value, "created_at") {
            RealtimeClientSecretExpirationAnchor::CreatedAt
        } else {
            RealtimeClientSecretExpirationAnchor::Unknown(value.to_owned())
        }
    }

    /// The exact string used on the wire.
    pub fn as_str(&self) -> (r: &str)
        ensures
            r@ == self.wire(),
    {
        match self {
            RealtimeClientSecretExpirationAnchor::CreatedAt => "created_at",
            RealtimeClientSecretExpirationAnchor::Unknown(s) => s.as_str(),
        }
    }

    /// Whether this crate knows the wire value.
    pub fn is_known(&self) -> (r: bool)
        ensures
            r == !(self is Unknown),
    {
        match self {
            RealtimeClientSecretExpirationAnchor::Unknown(_) => false,
            _ => true,
        }
    }

    /// The raw value, only when it is unknown to this crate.
    pub fn unknown_value(&self) -> (r: Option<&str>)
        ensures
            match self {
                RealtimeClientSecretExpirationAnchor::Unknown(s) => r matches Some(x) && x@ == s@,
                _ => r is None,
            },
    {
        match self {
            RealtimeClientSecretExpirationAnchor::Unknown(s) => Some(s.as_str()),
            _ => None,
        }
    }
}

/// Lifecycle status of a Realtime response.
#[derive(Debug, Clone)]
pub enum RealtimeResponseStatus {
    /// `in_progress`.
    InProgress,
    /// `completed`.
    Completed,
    /// `cancelled`.
    Cancelled,
    /// `failed`.
    Failed,
    /// `incomplete`.
    Incomplete,
    /// A value added by the service after this crate was released.
    Unknown(String),
}

/// Each variant of [`RealtimeResponseStatus`] stands for the wire value the API pairs
/// with it, and those values are exactly the ones known.
pub proof fn law_realtime_response_status_wire_values(value: Seq<char>)
    ensures
        RealtimeResponseStatus::InProgress.wire() == "in_progress"@,
        RealtimeResponseStatus::Completed.wire() == "completed"@,
        RealtimeResponseStatus::Cancelled.wire() == "cancelled"@,
        RealtimeResponseStatus::Failed.wire() == "failed"@,
        RealtimeResponseStatus::Incomplete.wire() == "incomplete"@,
        RealtimeResponseStatus::is_known_wire(value) <==> (value == "in_progress"@ || value == "completed"@ || value == "cancelled"@ || value == "failed"@ || value == "incomplete"@),
{
}

impl RealtimeResponseStatus {
    /// The exact string used on the wire.
    pub open spec fn wire(&self) -> Seq<char> {
        match self {
            RealtimeResponseStatus::InProgress => "in_progress"@,
            RealtimeResponseStatus::Completed => "completed"@,
            RealtimeResponseStatus::Cancelled => "cancelled"@,
            RealtimeResponseStatus::Failed => "failed"@,
            RealtimeResponseStatus::Incomplete => "incomplete"@,
            RealtimeResponseStatus::Unknown(s) => s@,
        }
    }

    /// Whether `value` is one of the wire values this crate knows.
    pub open spec fn is_known_wire(value: Seq<char>) -> bool {
        value == "in_progress"@ || value == "completed"@ || value == "cancelled"@ || value == "failed"@ || value == "incomplete"@
    }

    /// Parses a wire value while retaining unknown strings verbatim.
    pub fn from_raw(value: &str) -> (r: Self)
        ensures
            r.wire() == value@,
            (r is Unknown) == !Self::is_known_wire(value@),
    {
        if chars_eq(value, "in_progress") {
            RealtimeResponseStatus::InProgress
        } else if chars_eq(value, "completed") {
            RealtimeResponseStatus::Completed
        } else if chars_eq(value, "cancelled") {
            RealtimeResponseStatus::Cancelled
        } else if chars_eq(value, "failed") {
            RealtimeResponseStatus::Failed
        } else if chars_eq(value, "incomplete") {
            RealtimeResponseStatus::Incomplete
        } else {
            RealtimeResponseStatus::Unknown(value.to_owned())
        }
    }

    /// The exact string used on the wire.
    pub fn as_str(&self) -> (r: &str)
        ensures
            r@ == self.wire(),
    {
        match self {
            RealtimeResponseStatus::InProgress => "in_progress",
            RealtimeResponseStatus::Completed => "completed",
            RealtimeResponseStatus::Cancelled => "cancelled",
            RealtimeResponseStatus::Failed => "failed",
            RealtimeResponseStatus::Incomplete => "incomplete",
            RealtimeResponseStatus::Unknown(s) => s.as_str(),
        }
    }

    /// Whether this crate knows the wire value.
    pub fn is_known(&self) -> (r: bool)
        ensures
            r == !(self is Unknown),
    {
        match self {
            RealtimeResponseStatus::Unknown(_) => false,
            _ => true,
        }
    }

    /// The raw value, only when it is unknown to this crate.
    pub fn unknown_value(&self) -> (r: Option<&str>)
        ensures
            match self {
                RealtimeResponseStatus::Unknown(s) => r matches Some(x) && x@ == s@,
                _ => r is None,
            },
    {
        match self {
            RealtimeResponseStatus::Unknown(s) => Some(s.as_str()),
            _ => None,
        }
    }
}

/// Lifecycle status of a Realtime conversation item.
#[derive(Debug, Clone)]
pub enum RealtimeItemStatus {
    /// `in_progress`.
    InProgress,
    /// `completed`.
    Completed,
    /// `incomplete`.
    Incomplete,
    /// A value added by the service after this crate was released.
    Unknown(String),
}

/// Each variant of [`RealtimeItemStatus`] stands for the wire value the API pairs
/// with it, and those values are exactly the ones known.
pub proof fn law_realtime_item_status_wire_values(value: Seq<char>)
    ensures
        RealtimeItemStatus::InProgress.wire() == "in_progress"@,
        RealtimeItemStatus::Completed.wire() == "completed"@,
        RealtimeItemStatus::Incomplete.wire() == "incomplete"@,
        RealtimeItemStatus::is_known_wire(value) <==> (value == "in_progress"@ || value == "completed"@ || value == "incomplete"@),
{
}

impl RealtimeItemStatus {
    /// The exact string used on the wire.
    pub open spec fn wire(&self) -> Seq<char> {
        match self {
            RealtimeItemStatus::InProgress => "in_progress"@,
            RealtimeItemStatus::Completed => "completed"@,
            RealtimeItemStatus::Incomplete => "incomplete"@,
            RealtimeItemStatus::Unknown(s) => s@,
        }
    }

    /// Whether `value` is one of the wire values this crate knows.
    pub open spec fn is_known_wire(value: Seq<char>) -> bool {
        value == "in_progress"@ || value == "completed"@ || value == "incomplete"@
    }

    /// Parses a wire value while retaining unknown strings verbatim.
    pub fn from_raw(value: &str) -> (r: Self)
        ensures
            r.wire() == value@,
            (r is Unknown) == !Self::is_known_wire(value@),
    {
        if chars_eq(value, "in_progress") {
            RealtimeItemStatus::InProgress
        } else if chars_eq(value, "completed") {
            RealtimeItemStatus::Completed
        } else if chars_eq(value, "incomplete") {
            RealtimeItemStatus::Incomplete
        } else {
            RealtimeItemStatus::Unknown(value.to_owned())
        }
    }

    /// The exact string used on the wire.
    pub fn as_str(&self) -> (r: &str)
        ensures
            r@ == self.wire(),
    {
        match self {
            RealtimeItemStatus::InProgress => "in_progress",
            RealtimeItemStatus::Completed => "completed",
            RealtimeItemStatus::Incomplete => "incomplete",
            RealtimeItemStatus::Unknown(s) => s.as_str(),
        }
    }

    /// Whether this crate knows the wire value.
    pub fn is_known(&self) -> (r: bool)
        ensures
            r == !(self is Unknown),
    {
        match self {
            RealtimeItemStatus::Unknown(_) => false,
            _ => true,
        }
    }

    /// The raw value, only when it is unknown to this crate.
    pub fn unknown_value(&self) -> (r: Option<&str>)
        ensures
            match self {
                RealtimeItemStatus::Unknown(s) => r matches Some(x) && x@ == s@,
                _ => r is None,
            },
    {
        match self {
            RealtimeItemStatus::Unknown(s) => Some(s.as_str()),
            _ => None,
        }
    }
}

/// Reasoning effort for reasoning-capable Realtime models.
#[derive(Debug, Clone)]
pub enum RealtimeReasoningEffort {
    /// `minimal`.
    Minimal,
    /// `low`.
    Low,
    /// `medium`.
    Medium,
    /// `high`.
    High,
    /// `xhigh`.
    XHigh,
    /// A value added by the service after this crate was released.
    Unknown(String),
}

/// Each variant of [`RealtimeReasoningEffort`] stands for the wire value the API pairs
/// with it, and those values are exactly the ones known.
pub proof fn law_realtime_reasoning_effort_wire_values(value: Seq<char>)
    ensures
        RealtimeReasoningEffort::Minimal.wire() == "minimal"@,
        RealtimeReasoningEffort::Low.wire() == "low"@,
        RealtimeReasoningEffort::Medium.wire() == "medium"@,
        RealtimeReasoningEffort::High.wire() == "high"@,
        RealtimeReasoningEffort::XHigh.wire() == "xhigh"@,
        RealtimeReasoningEffort::is_known_wire(value) <==> (value == "minimal"@ || value == "low"@ || value == "medium"@ || value == "high"@ || value == "xhigh"@),
{
}

impl RealtimeReasoningEffort {
    /// The exact string used on the wire.
    pub open spec fn wire(&self) -> Seq<char> {
        match self {
            RealtimeReasoningEffort::Minimal => "minimal"@,
            RealtimeReasoningEffort::Low => "low"@,
            RealtimeReasoningEffort::Medium => "medium"@,
            RealtimeReasoningEffort::High => "high"@,
            RealtimeReasoningEffort::XHigh => "xhigh"@,
            RealtimeReasoningEffort::Unknown(s) => s@,
        }
    }

    /// Whether `value` is one of the wire values this crate knows.
    pub open spec fn is_known_wire(value: Seq<char>) -> bool {
        value == "minimal"@ || value == "low"@ || value == "medium"@ || value == "high"@ || value == "xhigh"@
    }

    /// Parses a wire value while retaining unknown strings verbatim.
    pub fn from_raw(value: &str) -> (r: Self)
        ensures
            r.wire() == value@,
            (r is Unknown) == !Self::is_known_wire(value@),
    {
        if chars_eq(value, "minimal") {
            RealtimeReasoningEffort::Minimal
        } else if chars_eq(value, "low") {
            RealtimeReasoningEffort::Low
        } else if chars_eq(value, "medium") {
            RealtimeReasoningEffort::Medium
        } else if chars_eq(value, "high") {
            RealtimeReasoningEffort::High
        } else if chars_eq(value, "xhigh") {
            RealtimeReasoningEffort::XHigh
        } else {
            RealtimeReasoningEffort::Unknown(value.to_owned())
        }
    }

    /// The exact string used on the wire.
    pub fn as_str(&self) -> (r: &str)
        ensures
            r@ == self.wire(),
    {
        match self {
            RealtimeReasoningEffort::Minimal => "minimal",
            RealtimeReasoningEffort::Low => "low",
            RealtimeReasoningEffort::Medium => "medium",
            RealtimeReasoningEffort::High => "high",
            RealtimeReasoningEffort::XHigh => "xhigh",
            RealtimeReasoningEffort::Unknown(s) => s.as_str(),
        }
    }

    /// Whether this crate knows the wire value.
    pub fn is_known(&self) -> (r: bool)
        ensures
            r == !(self is Unknown),
    {
        match self {
            RealtimeReasoningEffort::Unknown(_) => false,
            _ => true,
        }
    }

    /// The raw value, only when it is unknown to this crate.
    pub fn unknown_value(&self) -> (r: Option<&str>)
        ensures
            match self {
                RealtimeReasoningEffort::Unknown(s) => r matches Some(x) && x@ == s@,
                _ => r is None,
            },
    {
        match self {
            RealtimeReasoningEffort::Unknown(s) => Some(s.as_str()),
            _ => None,
        }
    }
}

/// How long a transcription session waits before emitting text (a domain of its own, though its wire values match the reasoning efforts).
#[derive(Debug, Clone)]
pub enum RealtimeTranscriptionDelay {
    /// `minimal`.
    Minimal,
    /// `low`.
    Low,
    /// `medium`.
    Medium,
    /// `high`.
    High,
    /// `xhigh`.
    XHigh,
    /// A value added by the service after this crate was released.
    Unknown(String),
}

/// Each variant of [`RealtimeTranscriptionDelay`] stands for the wire value the API pairs
/// with it, and those values are exactly the ones known.
pub proof fn law_realtime_transcription_delay_wire_values(value: Seq<char>)
    ensures
        RealtimeTranscriptionDelay::Minimal.wire() == "minimal"@,
        RealtimeTranscriptionDelay::Low.wire() == "low"@,
        RealtimeTranscriptionDelay::Medium.wire() == "medium"@,
        RealtimeTranscriptionDelay::High.wire() == "high"@,
        RealtimeTranscriptionDelay::XHigh.wire() == "xhigh"@,
        RealtimeTranscriptionDelay::is_known_wire(value) <==> (value == "minimal"@ || value == "low"@ || value == "medium"@ || value == "high"@ || value == "xhigh"@),
{
}

impl RealtimeTranscriptionDelay {
    /// The exact string used on the wire.
    pub open spec fn wire(&self) -> Seq<char> {
        match self {
            RealtimeTranscriptionDelay::Minimal => "minimal"@,
            RealtimeTranscriptionDelay::Low => "low"@,
            RealtimeTranscriptionDelay::Medium => "medium"@,
            RealtimeTranscriptionDelay::High => "high"@,
            RealtimeTranscriptionDelay::XHigh => "xhigh"@,
            RealtimeTranscriptionDelay::Unknown(s) => s@,
        }
    }

    /// Whether `value` is one of the wire values this crate knows.
    pub open spec fn is_known_wire(value: Seq<char>) -> bool {
        value == "minimal"@ || value == "low"@ || value == "medium"@ || value == "high"@ || value == "xhigh"@
    }

    /// Parses a wire value while retaining unknown strings verbatim.
    pub fn from_raw(value: &str) -> (r: Self)
        ensures
            r.wire() == value@,
            (r is Unknown) == !Self::is_known_wire(value@),
    {
        if chars_eq(value, "minimal") {
            RealtimeTranscriptionDelay::Minimal
        } else if chars_eq(value, "low") {
            RealtimeTranscriptionDelay::Low
        } else if chars_eq(value, "medium") {
            RealtimeTranscriptionDelay::Medium
        } else if chars_eq(value, "high") {
            RealtimeTranscriptionDelay::High
        } else if chars_eq(value, "xhigh") {
            RealtimeTranscriptionDelay::XHigh
        } else {
            RealtimeTranscriptionDelay::Unknown(value.to_owned())
        }
    }

    /// The exact string used on the wire.
    pub fn as_str(&self) -> (r: &str)
        ensures
            r@ == self.wire(),
    {
        match self {
            RealtimeTranscriptionDelay::Minimal => "minimal",
            RealtimeTranscriptionDelay::Low => "low",
            RealtimeTranscriptionDelay::Medium => "medium",
            RealtimeTranscriptionDelay::High => "high",
            RealtimeTranscriptionDelay::XHigh => "xhigh",
            RealtimeTranscriptionDelay::Unknown(s) => s.as_str(),
        }
    }

    /// Whether this crate knows the wire value.
    pub fn is_known(&self) -> (r: bool)
        ensures
            r == !(self is Unknown),
    {
        match self {
            RealtimeTranscriptionDelay::Unknown(_) => false,
            _ => true,
        }
    }

    /// The raw value, only when it is unknown to this crate.
    pub fn unknown_value(&self) -> (r: Option<&str>)
        ensures
            match self {
                RealtimeTranscriptionDelay::Unknown(s) => r matches Some(x) && x@ == s@,
                _ => r is None,
            },
    {
        match self {
            RealtimeTranscriptionDelay::Unknown(s) => Some(s.as_str()),
            _ => None,
        }
    }
}

/// Built-in Realtime voice name.
#[derive(Debug, Clone)]
pub enum RealtimeVoiceName {
    /// `alloy`.
    Alloy,
    /// `ash`.
    Ash,
    /// `ballad`.
    Ballad,
    /// `coral`.
    Coral,
    /// `echo`.
    Echo,
    /// `sage`.
    Sage,
    /// `shimmer`.
    Shimmer,
    /// `verse`.
    Verse,
    /// `marin`.
    Marin,
    /// `cedar`.
    Cedar,
    /// A value added by the service after this crate was released.
    Unknown(String),
}

/// Each variant of [`RealtimeVoiceName`] stands for the wire value the API pairs
/// with it, and those values are exactly the ones known.
pub proof fn law_realtime_voice_name_wire_values(value: Seq<char>)
    ensures
        RealtimeVoiceName::Alloy.wire() == "alloy"@,
        RealtimeVoiceName::Ash.wire() == "ash"@,
        RealtimeVoiceName::Ballad.wire() == "ballad"@,
        RealtimeVoiceName::Coral.wire() == "coral"@,
        RealtimeVoiceName::Echo.wire() == "echo"@,
        RealtimeVoiceName::Sage.wire() == "sage"@,
        RealtimeVoiceName::Shimmer.wire() == "shimmer"@,
        RealtimeVoiceName::Verse.wire() == "verse"@,
        RealtimeVoiceName::Marin.wire() == "marin"@,
        RealtimeVoiceName::Cedar.wire() == "cedar"@,
        RealtimeVoiceName::is_known_wire(value) <==> (value == "alloy"@ || value == "ash"@ || value == "ballad"@ || value == "coral"@ || value == "echo"@ || value == "sage"@ || value == "shimmer"@ || value == "verse"@ || value == "marin"@ || value == "cedar"@),
{
}

impl RealtimeVoiceName {
    /// The exact string used on the wire.
    pub open spec fn wire(&self) -> Seq<char> {
        match self {
            RealtimeVoiceName::Alloy => "alloy"@,
            RealtimeVoiceName::Ash => "ash"@,
            RealtimeVoiceName::Ballad => "ballad"@,
            RealtimeVoiceName::Coral => "coral"@,
            RealtimeVoiceName::Echo => "echo"@,
            RealtimeVoiceName::Sage => "sage"@,
            RealtimeVoiceName::Shimmer => "shimmer"@,
            RealtimeVoiceName::Verse => "verse"@,
            RealtimeVoiceName::Marin => "marin"@,
            RealtimeVoiceName::Cedar => "cedar"@,
            RealtimeVoiceName::Unknown(s) => s@,
        }
    }

    /// Whether `value` is one of the wire values this crate knows.
    pub open spec fn is_known_wire(value: Seq<char>) -> bool {
        value == "alloy"@ || value == "ash"@ || value == "ballad"@ || value == "coral"@ || value == "echo"@ || value == "sage"@ || value == "shimmer"@ || value == "verse"@ || value == "marin"@ || value == "cedar"@
    }

    /// Parses a wire value while retaining unknown strings verbatim.
    pub fn from_raw(value: &str) -> (r: Self)
        ensures
            r.wire() == value@,
            (r is Unknown) == !Self::is_known_wire(value@),
    {
        if chars_eq(value, "alloy") {
            RealtimeVoiceName::Alloy
        } else if chars_eq(value, "ash") {
            RealtimeVoiceName::Ash
        } else if chars_eq(value, "ballad") {
            RealtimeVoiceName::Ballad
        } else if chars_eq(value, "coral") {
            RealtimeVoiceName::Coral
        } else if chars_eq(value, "echo") {
            RealtimeVoiceName::Echo
        } else if chars_eq(value, "sage") {
            RealtimeVoiceName::Sage
        } else if chars_eq(value, "shimmer") {
            RealtimeVoiceName::Shimmer
        } else if chars_eq(value, "verse") {
            RealtimeVoiceName::Verse
        } else if chars_eq(value, "marin") {
            RealtimeVoiceName::Marin
        } else if chars_eq(value, "cedar") {
            RealtimeVoiceName::Cedar
        } else {
            RealtimeVoiceName::Unknown(value.to_owned())
        }
    }

    /// The exact string used on the wire.
    pub fn as_str(&self) -> (r: &str)
        ensures
            r@ == self.wire(),
    {
        match self {
            RealtimeVoiceName::Alloy => "alloy",
            RealtimeVoiceName::Ash => "ash",
            RealtimeVoiceName::Ballad => "ballad",
            RealtimeVoiceName::Coral => "coral",
            RealtimeVoiceName::Echo => "echo",
            RealtimeVoiceName::Sage => "sage",
            RealtimeVoiceName::Shimmer => "shimmer",
            RealtimeVoiceName::Verse => "verse",
            RealtimeVoiceName::Marin => "marin",
            RealtimeVoiceName::Cedar => "cedar",
            RealtimeVoiceName::Unknown(s) => s.as_str(),
        }
    }

    /// Whether this crate knows the wire value.
    pub fn is_known(&self) -> (r: bool)
        ensures
            r == !(self is Unknown),
    {
        match self {
            RealtimeVoiceName::Unknown(_) => false,
            _ => true,
        }
    }

    /// The raw value, only when it is unknown to this crate.
    pub fn unknown_value(&self) -> (r: Option<&str>)
        ensures
            match self {
                RealtimeVoiceName::Unknown(s) => r matches Some(x) && x@ == s@,
                _ => r is None,
            },
    {
        match self {
            RealtimeVoiceName::Unknown(s) => Some(s.as_str()),
            _ => None,
        }
    }
}

/// Input noise-reduction mode.
#[derive(Debug, Clone)]
pub enum RealtimeNoiseReductionType {
    /// `near_field`.
    NearField,
    /// `far_field`.
    FarField,
    /// A value added by the service after this crate was released.
    Unknown(String),
}

/// Each variant of [`RealtimeNoiseReductionType`] stands for the wire value the API pairs
/// with it, and those values are exactly the ones known.
pub proof fn law_realtime_noise_reduction_type_wire_values(value: Seq<char>)
    ensures
        RealtimeNoiseReductionType::NearField.wire() == "near_field"@,
        RealtimeNoiseReductionType::FarField.wire() == "far_field"@,
        RealtimeNoiseReductionType::is_known_wire(value) <==> (value == "near_field"@ || value == "far_field"@),
{
}

impl RealtimeNoiseReductionType {
    /// The exact string used on the wire.
    pub open spec fn wire(&self) -> Seq<char> {
        match self {
            RealtimeNoiseReductionType::NearField => "near_field"@,
            RealtimeNoiseReductionType::FarField => "far_field"@,
            RealtimeNoiseReductionType::Unknown(s) => s@,
        }
    }

    /// Whether `value` is one of the wire values this crate knows.
    pub open spec fn is_known_wire(value: Seq<char>) -> bool {
        value == "near_field"@ || value == "far_field"@
    }

    /// Parses a wire value while retaining unknown strings verbatim.
    pub fn from_raw(value: &str) -> (r: Self)
        ensures
            r.wire() == value@,
            (r is Unknown) == !Self::is_known_wire(value@),
    {
        if chars_eq(value, "near_field") {
            RealtimeNoiseReductionType::NearField
        } else if chars_eq(value, "far_field") {
            RealtimeNoiseReductionType::FarField
        } else {
            RealtimeNoiseReductionType::Unknown(value.to_owned())
        }
    }

    /// The exact string used on the wire.
    pub fn as_str(&self) -> (r: &str)
        ensures
            r@ == self.wire(),
    {
        match self {
            RealtimeNoiseReductionType::NearField => "near_field",
            RealtimeNoiseReductionType::FarField => "far_field",
            RealtimeNoiseReductionType::Unknown(s) => s.as_str(),
        }
    }

    /// Whether this crate knows the wire value.
    pub fn is_known(&self) -> (r: bool)
        ensures
            r == !(self is Unknown),
    {
        match self {
            RealtimeNoiseReductionType::Unknown(_) => false,
            _ => true,
        }
    }

    /// The raw value, only when it is unknown to this crate.
    pub fn unknown_value(&self) -> (r: Option<&str>)
        ensures
            match self {
                RealtimeNoiseReductionType::Unknown(s) => r matches Some(x) && x@ == s@,
                _ => r is None,
            },
    {
        match self {
            RealtimeNoiseReductionType::Unknown(s) => Some(s.as_str()),
            _ => None,
        }
    }
}

/// Semantic VAD eagerness.
#[derive(Debug, Clone)]
pub enum RealtimeVadEagerness {
    /// `low`.
    Low,
    /// `medium`.
    Medium,
    /// `high`.
    High,
    /// `auto`.
    Auto,
    /// A value added by the service after this crate was released.
    Unknown(String),
}

/// Each variant of [`RealtimeVadEagerness`] stands for the wire value the API pairs
/// with it, and those values are exactly the ones known.
pub proof fn law_realtime_vad_eagerness_wire_values(value: Seq<char>)
    ensures
        RealtimeVadEagerness::Low.wire() == "low"@,
        RealtimeVadEagerness::Medium.wire() == "medium"@,
        RealtimeVadEagerness::High.wire() == "high"@,
        RealtimeVadEagerness::Auto.wire() == "auto"@,
        RealtimeVadEagerness::is_known_wire(value) <==> (value == "low"@ || value == "medium"@ || value == "high"@ || value == "auto"@),
{
}

impl RealtimeVadEagerness {
    /// The exact string used on the wire.
    pub open spec fn wire(&self) -> Seq<char> {
        match self {
            RealtimeVadEagerness::Low => "low"@,
            RealtimeVadEagerness::Medium => "medium"@,
            RealtimeVadEagerness::High => "high"@,
            RealtimeVadEagerness::Auto => "auto"@,
            RealtimeVadEagerness::Unknown(s) => s@,
        }
    }

    /// Whether `value` is one of the wire values this crate knows.
    pub open spec fn is_known_wire(value: Seq<char>) -> bool {
        value == "low"@ || value == "medium"@ || value == "high"@ || value == "auto"@
    }

    /// Parses a wire value while retaining unknown strings verbatim.
    pub fn from_raw(value: &str) -> (r: Self)
        ensures
            r.wire() == value@,
            (r is Unknown) == !Self::is_known_wire(value@),
    {
        if chars_eq(value, "low") {
            RealtimeVadEagerness::Low
        } else if chars_eq(value, "medium") {
            RealtimeVadEagerness::Medium
        } else if chars_eq(value, "high") {
            RealtimeVadEagerness::High
        } else if chars_eq(value, "auto") {
            RealtimeVadEagerness::Auto
        } else {
            RealtimeVadEagerness::Unknown(value.to_owned())
        }
    }

    /// The exact string used on the wire.
    pub fn as_str(&self) -> (r: &str)
        ensures
            r@ == self.wire(),
    {
        match self {
            RealtimeVadEagerness::Low => "low",
            RealtimeVadEagerness::Medium => "medium",
            RealtimeVadEagerness::High => "high",
            RealtimeVadEagerness::Auto => "auto",
            RealtimeVadEagerness::Unknown(s) => s.as_str(),
        }
    }

    /// Whether this crate knows the wire value.
    pub fn is_known(&self) -> (r: bool)
        ensures
            r == !(self is Unknown),
    {
        match self {
            RealtimeVadEagerness::Unknown(_) => false,
            _ => true,
        }
    }

    /// The raw value, only when it is unknown to this crate.
    pub fn unknown_value(&self) -> (r: Option<&str>)
        ensures
            match self {
                RealtimeVadEagerness::Unknown(s) => r matches Some(x) && x@ == s@,
                _ => r is None,
            },
    {
        match self {
            RealtimeVadEagerness::Unknown(s) => Some(s.as_str()),
            _ => None,
        }
    }
}

/// Realtime tool-choice string mode.
#[derive(Debug, Clone)]
pub enum RealtimeToolChoiceMode {
    /// `none`.
    NoTool,
    /// `auto`.
    Auto,
    /// `required`.
    Required,
    /// A value added by the service after this crate was released.
    Unknown(String),
}

/// Each variant of [`RealtimeToolChoiceMode`] stands for the wire value the API pairs
/// with it, and those values are exactly the ones known.
pub proof fn law_realtime_tool_choice_mode_wire_values(value: Seq<char>)
    ensures
        RealtimeToolChoiceMode::NoTool.wire() == "none"@,
        RealtimeToolChoiceMode::Auto.wire() == "auto"@,
        RealtimeToolChoiceMode::Required.wire() == "required"@,
        RealtimeToolChoiceMode::is_known_wire(value) <==> (value == "none"@ || value == "auto"@ || value == "required"@),
{
}

impl RealtimeToolChoiceMode {
    /// The exact string used on the wire.
    pub open spec fn wire(&self) -> Seq<char> {
        match self {
            RealtimeToolChoiceMode::NoTool => "none"@,
            RealtimeToolChoiceMode::Auto => "auto"@,
            RealtimeToolChoiceMode::Required => "required"@,
            RealtimeToolChoiceMode::Unknown(s) => s@,
        }
    }

    /// Whether `value` is one of the wire values this crate knows.
    pub open spec fn is_known_wire(value: Seq<char>) -> bool {
        value == "none"@ || value == "auto"@ || value == "required"@
    }

    /// Parses a wire value while retaining unknown strings verbatim.
    pub fn from_raw(value: &str) -> (r: Self)
        ensures
            r.wire() == value@,
            (r is Unknown) == !Self::is_known_wire(value@),
    {
        if chars_eq(value, "none") {
            RealtimeToolChoiceMode::NoTool
        } else if chars_eq(value, "auto") {
            RealtimeToolChoiceMode::Auto
        } else if chars_eq(value, "required") {
            RealtimeToolChoiceMode::Required
        } else {
            RealtimeToolChoiceMode::Unknown(value.to_owned())
        }
    }

    /// The exact string used on the wire.
    pub fn as_str(&self) -> (r: &str)
        ensures
            r@ == self.wire(),
    {
        match self {
            RealtimeToolChoiceMode::NoTool => "none",
            RealtimeToolChoiceMode::Auto => "auto",
            RealtimeToolChoiceMode::Required => "required",
            RealtimeToolChoiceMode::Unknown(s) => s.as_str(),
        }
    }

    /// Whether this crate knows the wire value.
    pub fn is_known(&self) -> (r: bool)
        ensures
            r == !(self is Unknown),
    {
        match self {
            RealtimeToolChoiceMode::Unknown(_) => false,
            _ => true,
        }
    }

    /// The raw value, only when it is unknown to this crate.
    pub fn unknown_value(&self) -> (r: Option<&str>)
        ensures
            match self {
                RealtimeToolChoiceMode::Unknown(s) => r matches Some(x) && x@ == s@,
                _ => r is None,
            },
    {
        match self {
            RealtimeToolChoiceMode::Unknown(s) => Some(s.as_str()),
            _ => None,
        }
    }
}

/// Name of a Realtime rate-limit bucket.
#[derive(Debug, Clone)]
pub enum RealtimeRateLimitName {
    /// `requests`.
    Requests,
    /// `tokens`.
    Tokens,
    /// A value added by the service after this crate was released.
    Unknown(String),
}

/// Each variant of [`RealtimeRateLimitName`] stands for the wire value the API pairs
/// with it, and those values are exactly the ones known.
pub proof fn law_realtime_rate_limit_name_wire_values(value: Seq<char>)
    ensures
        RealtimeRateLimitName::Requests.wire() == "requests"@,
        RealtimeRateLimitName::Tokens.wire() == "tokens"@,
        RealtimeRateLimitName::is_known_wire(value) <==> (value == "requests"@ || value == "tokens"@),
{
}

impl RealtimeRateLimitName {
    /// The exact string used on the wire.
    pub open spec fn wire(&self) -> Seq<char> {
        match self {
            RealtimeRateLimitName::Requests => "requests"@,
            RealtimeRateLimitName::Tokens => "tokens"@,
            RealtimeRateLimitName::Unknown(s) => s@,
        }
    }

    /// Whether `value` is one of the wire values this crate knows.
    pub open spec fn is_known_wire(value: Seq<char>) -> bool {
        value == "requests"@ || value == "tokens"@
    }

    /// Parses a wire value while retaining unknown strings verbatim.
    pub fn from_raw(value: &str) -> (r: Self)
        ensures
            r.wire() == value@,
            (r is Unknown) == !Self::is_known_wire(value@),
    {
        if chars_eq(value, "requests") {
            RealtimeRateLimitName::Requests
        } else if chars_eq(value, "tokens") {
            RealtimeRateLimitName::Tokens
        } else {
            RealtimeRateLimitName::Unknown(value.to_owned())
        }
    }

    /// The exact string used on the wire.
    pub fn as_str(&self) -> (r: &str)
        ensures
            r@ == self.wire(),
    {
        match self {
            RealtimeRateLimitName::Requests => "requests",
            RealtimeRateLimitName::Tokens => "tokens",
            RealtimeRateLimitName::Unknown(s) => s.as_str(),
        }
    }

    /// Whether this crate knows the wire value.
    pub fn is_known(&self) -> (r: bool)
        ensures
            r == !(self is Unknown),
    {
        match self {
            RealtimeRateLimitName::Unknown(_) => false,
            _ => true,
        }
    }

    /// The raw value, only when it is unknown to this crate.
    pub fn unknown_value(&self) -> (r: Option<&str>)
        ensures
            match self {
                RealtimeRateLimitName::Unknown(s) => r matches Some(x) && x@ == s@,
                _ => r is None,
            },
    {
        match self {
            RealtimeRateLimitName::Unknown(s) => Some(s.as_str()),
            _ => None,
        }
    }
}

/// Reason a Realtime response stopped.
#[derive(Debug, Clone)]
pub enum RealtimeResponseStopReason {
    /// `turn_detected`.
    TurnDetected,
    /// `client_cancelled`.
    ClientCancelled,
    /// `max_output_tokens`.
    MaxOutputTokens,
    /// `content_filter`.
    ContentFilter,
    /// A value added by the service after this crate was released.
    Unknown(String),
}

/// Each variant of [`RealtimeResponseStopReason`] stands for the wire value the API pairs
/// with it, and those values are exactly the ones known.
pub proof fn law_realtime_response_stop_reason_wire_values(value: Seq<char>)
    ensures
        RealtimeResponseStopReason::TurnDetected.wire() == "turn_detected"@,
        RealtimeResponseStopReason::ClientCancelled.wire() == "client_cancelled"@,
        RealtimeResponseStopReason::MaxOutputTokens.wire() == "max_output_tokens"@,
        RealtimeResponseStopReason::ContentFilter.wire() == "content_filter"@,
        RealtimeResponseStopReason::is_known_wire(value) <==> (value == "turn_detected"@ || value == "client_cancelled"@ || value == "max_output_tokens"@ || value == "content_filter"@),
{
}

impl RealtimeResponseStopReason {
    /// The exact string used on the wire.
    pub open spec fn wire(&self) -> Seq<char> {
        match self {
            RealtimeResponseStopReason::TurnDetected => "turn_detected"@,
            RealtimeResponseStopReason::ClientCancelled => "client_cancelled"@,
            RealtimeResponseStopReason::MaxOutputTokens => "max_output_tokens"@,
            RealtimeResponseStopReason::ContentFilter => "content_filter"@,
            RealtimeResponseStopReason::Unknown(s) => s@,
        }
    }

    /// Whether `value` is one of the wire values this crate knows.
    pub open spec fn is_known_wire(value: Seq<char>) -> bool {
        value == "turn_detected"@ || value == "client_cancelled"@ || value == "max_output_tokens"@ || value == "content_filter"@
    }

    /// Parses a wire value while retaining unknown strings verbatim.
    pub fn from_raw(value: &str) -> (r: Self)
        ensures
            r.wire() == value@,
            (r is Unknown) == !Self::is_known_wire(value@),
    {
        if chars_eq(value, "turn_detected") {
            RealtimeResponseStopReason::TurnDetected
        } else if chars_eq(value, "client_cancelled") {
            RealtimeResponseStopReason::ClientCancelled
        } else if chars_eq(value, "max_output_tokens") {
            RealtimeResponseStopReason::MaxOutputTokens
        } else if chars_eq(value, "content_filter") {
            RealtimeResponseStopReason::ContentFilter
        } else {
            RealtimeResponseStopReason::Unknown(value.to_owned())
        }
    }

    /// The exact string used on the wire.
    pub fn as_str(&self) -> (r: &str)
        ensures
            r@ == self.wire(),
    {
        match self {
            RealtimeResponseStopReason::TurnDetected => "turn_detected",
            RealtimeResponseStopReason::ClientCancelled => "client_cancelled",
            RealtimeResponseStopReason::MaxOutputTokens => "max_output_tokens",
            RealtimeResponseStopReason::ContentFilter => "content_filter",
            RealtimeResponseStopReason::Unknown(s) => s.as_str(),
        }
    }

    /// Whether this crate knows the wire value.
    pub fn is_known(&self) -> (r: bool)
        ensures
            r == !(self is Unknown),
    {
        match self {
            RealtimeResponseStopReason::Unknown(_) => false,
            _ => true,
        }
    }

    /// The raw value, only when it is unknown to this crate.
    pub fn unknown_value(&self) -> (r: Option<&str>)
        ensures
            match self {
                RealtimeResponseStopReason::Unknown(s) => r matches Some(x) && x@ == s@,
                _ => r is None,
            },
    {
        match self {
            RealtimeResponseStopReason::Unknown(s) => Some(s.as_str()),
            _ => None,
        }
    }
}

/// Status represented by a Realtime response status-details object.
#[derive(Debug, Clone)]
pub enum RealtimeResponseStatusDetailsType {
    /// `completed`.
    Completed,
    /// `cancelled`.
    Cancelled,
    /// `failed`.
    Failed,
    /// `incomplete`.
    Incomplete,
    /// A value added by the service after this crate was released.
    Unknown(String),
}

/// Each variant of [`RealtimeResponseStatusDetailsType`] stands for the wire value the API pairs
/// with it, and those values are exactly the ones known.
pub proof fn law_realtime_response_status_details_type_wire_values(value: Seq<char>)
    ensures
        RealtimeResponseStatusDetailsType::Completed.wire() == "completed"@,
        RealtimeResponseStatusDetailsType::Cancelled.wire() == "cancelled"@,
        RealtimeResponseStatusDetailsType::Failed.wire() == "failed"@,
        RealtimeResponseStatusDetailsType::Incomplete.wire() == "incomplete"@,
        RealtimeResponseStatusDetailsType::is_known_wire(value) <==> (value == "completed"@ || value == "cancelled"@ || value == "failed"@ || value == "incomplete"@),
{
}

impl RealtimeResponseStatusDetailsType {
    /// The exact string used on the wire.
    pub open spec fn wire(&self) -> Seq<char> {
        match self {
            RealtimeResponseStatusDetailsType::Completed => "completed"@,
            RealtimeResponseStatusDetailsType::Cancelled => "cancelled"@,
            RealtimeResponseStatusDetailsType::Failed => "failed"@,
            RealtimeResponseStatusDetailsType::Incomplete => "incomplete"@,
            RealtimeResponseStatusDetailsType::Unknown(s) => s@,
        }
    }

    /// Whether `value` is one of the wire values this crate knows.
    pub open spec fn is_known_wire(value: Seq<char>) -> bool {
        value == "completed"@ || value == "cancelled"@ || value == "failed"@ || value == "incomplete"@
    }

    /// Parses a wire value while retaining unknown strings verbatim.
    pub fn from_raw(value: &str) -> (r: Self)
        ensures
            r.wire() == value@,
            (r is Unknown) == !Self::is_known_wire(value@),
    {
        if chars_eq(value, "completed") {
            RealtimeResponseStatusDetailsType::Completed
        } else if chars_eq(value, "cancelled") {
            RealtimeResponseStatusDetailsType::Cancelled
        } else if chars_eq(value, "failed") {
            RealtimeResponseStatusDetailsType::Failed
        } else if chars_eq(value, "incomplete") {
            RealtimeResponseStatusDetailsType::Incomplete
        } else {
            RealtimeResponseStatusDetailsType::Unknown(value.to_owned())
        }
    }

    /// The exact string used on the wire.
    pub fn as_str(&self) -> (r: &str)
        ensures
            r@ == self.wire(),
    {
        match self {
            RealtimeResponseStatusDetailsType::Completed => "completed",
            RealtimeResponseStatusDetailsType::Cancelled => "cancelled",
            RealtimeResponseStatusDetailsType::Failed => "failed",
            RealtimeResponseStatusDetailsType::Incomplete => "incomplete",
            RealtimeResponseStatusDetailsType::Unknown(s) => s.as_str(),
        }
    }

    /// Whether this crate knows the wire value.
    pub fn is_known(&self) -> (r: bool)
        ensures
            r == !(self is Unknown),
    {
        match self {
            RealtimeResponseStatusDetailsType::Unknown(_) => false,
            _ => true,
        }
    }

    /// The raw value, only when it is unknown to this crate.
    pub fn unknown_value(&self) -> (r: Option<&str>)
        ensures
            match self {
                RealtimeResponseStatusDetailsType::Unknown(s) => r matches Some(x) && x@ == s@,
                _ => r is None,
            },
    {
        match self {
            RealtimeResponseStatusDetailsType::Unknown(s) => Some(s.as_str()),
            _ => None,
        }
    }
}

/// Input image fidelity in a Realtime message.
#[derive(Debug, Clone)]
pub enum RealtimeImageDetail {
    /// `auto`.
    Auto,
    /// `low`.
    Low,
    /// `high`.
    High,
    /// A value added by the service after this crate was released.
    Unknown(String),
}

/// Each variant of [`RealtimeImageDetail`] stands for the wire value the API pairs
/// with it, and those values are exactly the ones known.
pub proof fn law_realtime_image_detail_wire_values(value: Seq<char>)
    ensures
        RealtimeImageDetail::Auto.wire() == "auto"@,
        RealtimeImageDetail::Low.wire() == "low"@,
        RealtimeImageDetail::High.wire() == "high"@,
        RealtimeImageDetail::is_known_wire(value) <==> (value == "auto"@ || value == "low"@ || value == "high"@),
{
}

impl RealtimeImageDetail {
    /// The exact string used on the wire.
    pub open spec fn wire(&self) -> Seq<char> {
        match self {
            RealtimeImageDetail::Auto => "auto"@,
            RealtimeImageDetail::Low => "low"@,
            RealtimeImageDetail::High => "high"@,
            RealtimeImageDetail::Unknown(s) => s@,
        }
    }

    /// Whether `value` is one of the wire values this crate knows.
    pub open spec fn is_known_wire(value: Seq<char>) -> bool {
        value == "auto"@ || value == "low"@ || value == "high"@
    }

    /// Parses a wire value while retaining unknown strings verbatim.
    pub fn from_raw(value: &str) -> (r: Self)
        ensures
            r.wire() == value@,
            (r is Unknown) == !Self::is_known_wire(value@),
    {
        if chars_eq(value, "auto") {
            RealtimeImageDetail::Auto
        } else if chars_eq(value, "low") {
            RealtimeImageDetail::Low
        } else if chars_eq(value, "high") {
            RealtimeImageDetail::High
        } else {
            RealtimeImageDetail::Unknown(value.to_owned())
        }
    }

    /// The exact string used on the wire.
    pub fn as_str(&self) -> (r: &str)
        ensures
            r@ == self.wire(),
    {
        match self {
            RealtimeImageDetail::Auto => "auto",
            RealtimeImageDetail::Low => "low",
            RealtimeImageDetail::High => "high",
            RealtimeImageDetail::Unknown(s) => s.as_str(),
        }
    }

    /// Whether this crate knows the wire value.
    pub fn is_known(&self) -> (r: bool)
        ensures
            r == !(self is Unknown),
    {
        match self {
            RealtimeImageDetail::Unknown(_) => false,
            _ => true,
        }
    }

    /// The raw value, only when it is unknown to this crate.
    pub fn unknown_value(&self) -> (r: Option<&str>)
        ensures
            match self {
                RealtimeImageDetail::Unknown(s) => r matches Some(x) && x@ == s@,
                _ => r is None,
            },
    {
        match self {
            RealtimeImageDetail::Unknown(s) => Some(s.as_str()),
            _ => None,
        }
    }
}

/// String form of Realtime truncation policy.
#[derive(Debug, Clone)]
pub enum RealtimeTruncationMode {
    /// `auto`.
    Auto,
    /// `disabled`.
    Disabled,
    /// A value added by the service after this crate was released.
    Unknown(String),
}

/// Each variant of [`RealtimeTruncationMode`] stands for the wire value the API pairs
/// with it, and those values are exactly the ones known.
pub proof fn law_realtime_truncation_mode_wire_values(value: Seq<char>)
    ensures
        RealtimeTruncationMode::Auto.wire() == "auto"@,
        RealtimeTruncationMode::Disabled.wire() == "disabled"@,
        RealtimeTruncationMode::is_known_wire(value) <==> (value == "auto"@ || value == "disabled"@),
{
}

impl RealtimeTruncationMode {
    /// The exact string used on the wire.
    pub open spec fn wire(&self) -> Seq<char> {
        match self {
            RealtimeTruncationMode::Auto => "auto"@,
            RealtimeTruncationMode::Disabled => "disabled"@,
            RealtimeTruncationMode::Unknown(s) => s@,
        }
    }

    /// Whether `value` is one of the wire values this crate knows.
    pub open spec fn is_known_wire(value: Seq<char>) -> bool {
        value == "auto"@ || value == "disabled"@
    }

    /// Parses a wire value while retaining unknown strings verbatim.
    pub fn from_raw(value: &str) -> (r: Self)
        ensures
            r.wire() == value@,
            (r is Unknown) == !Self::is_known_wire(value@),
    {
        if chars_eq(value, "auto") {
            RealtimeTruncationMode::Auto
        } else if chars_eq(value, "disabled") {
            RealtimeTruncationMode::Disabled
        } else {
            RealtimeTruncationMode::Unknown(value.to_owned())
        }
    }

    /// The exact string used on the wire.
    pub fn as_str(&self) -> (r: &str)
        ensures
            r@ == self.wire(),
    {
        match self {
            RealtimeTruncationMode::Auto => "auto",
            RealtimeTruncationMode::Disabled => "disabled",
            RealtimeTruncationMode::Unknown(s) => s.as_str(),
        }
    }

    /// Whether this crate knows the wire value.
    pub fn is_known(&self) -> (r: bool)
        ensures
            r == !(self is Unknown),
    {
        match self {
            RealtimeTruncationMode::Unknown(_) => false,
            _ => true,
        }
    }

    /// The raw value, only when it is unknown to this crate.
    pub fn unknown_value(&self) -> (r: Option<&str>)
        ensures
            match self {
                RealtimeTruncationMode::Unknown(s) => r matches Some(x) && x@ == s@,
                _ => r is None,
            },
    {
        match self {
            RealtimeTruncationMode::Unknown(s) => Some(s.as_str()),
            _ => None,
        }
    }
}

/// Content kind in a system message.
#[derive(Debug, Clone)]
pub enum RealtimeSystemContentType {
    /// `input_text`.
    InputText,
    /// A value added by the service after this crate was released.
    Unknown(String),
}

/// Each variant of [`RealtimeSystemContentType`] stands for the wire value the API pairs
/// with it, and those values are exactly the ones known.
pub proof fn law_realtime_system_content_type_wire_values(value: Seq<char>)
    ensures
        RealtimeSystemContentType::InputText.wire() == "input_text"@,
        RealtimeSystemContentType::is_known_wire(value) <==> (value == "input_text"@),
{
}

impl RealtimeSystemContentType {
    /// The exact string used on the wire.
    pub open spec fn wire(&self) -> Seq<char> {
        match self {
            RealtimeSystemContentType::InputText => "input_text"@,
            RealtimeSystemContentType::Unknown(s) => s@,
        }
    }

    /// Whether `value` is one of the wire values this crate knows.
    pub open spec fn is_known_wire(value: Seq<char>) -> bool {
        value == "input_text"@
    }

    /// Parses a wire value while retaining unknown strings verbatim.
    pub fn from_raw(value: &str) -> (r: Self)
        ensures
            r.wire() == value@,
            (r is Unknown) == !Self::is_known_wire(value@),
    {
        if chars_eq(value, "input_text") {
            RealtimeSystemContentType::InputText
        } else {
            RealtimeSystemContentType::Unknown(value.to_owned())
        }
    }

    /// The exact string used on the wire.
    pub fn as_str(&self) -> (r: &str)
        ensures
            r@ == self.wire(),
    {
        match self {
            RealtimeSystemContentType::InputText => "input_text",
            RealtimeSystemContentType::Unknown(s) => s.as_str(),
        }
    }

    /// Whether this crate knows the wire value.
    pub fn is_known(&self) -> (r: bool)
        ensures
            r == !(self is Unknown),
    {
        match self {
            RealtimeSystemContentType::Unknown(_) => false,
            _ => true,
        }
    }

    /// The raw value, only when it is unknown to this crate.
    pub fn unknown_value(&self) -> (r: Option<&str>)
        ensures
            match self {
                RealtimeSystemContentType::Unknown(s) => r matches Some(x) && x@ == s@,
                _ => r is None,
            },
    {
        match self {
            RealtimeSystemContentType::Unknown(s) => Some(s.as_str()),
            _ => None,
        }
    }
}

/// Content kind in a user message.
#[derive(Debug, Clone)]
pub enum RealtimeUserContentType {
    /// `input_text`.
    InputText,
    /// `input_audio`.
    InputAudio,
    /// `input_image`.
    InputImage,
    /// A value added by the service after this crate was released.
    Unknown(String),
}

/// Each variant of [`RealtimeUserContentType`] stands for the wire value the API pairs
/// with it, and those values are exactly the ones known.
pub proof fn law_realtime_user_content_type_wire_values(value: Seq<char>)
    ensures
        RealtimeUserContentType::InputText.wire() == "input_text"@,
        RealtimeUserContentType::InputAudio.wire() == "input_audio"@,
        RealtimeUserContentType::InputImage.wire() == "input_image"@,
        RealtimeUserContentType::is_known_wire(value) <==> (value == "input_text"@ || value == "input_audio"@ || value == "input_image"@),
{
}

impl RealtimeUserContentType {
    /// The exact string used on the wire.
    pub open spec fn wire(&self) -> Seq<char> {
        match self {
            RealtimeUserContentType::InputText => "input_text"@,
            RealtimeUserContentType::InputAudio => "input_audio"@,
            RealtimeUserContentType::InputImage => "input_image"@,
            RealtimeUserContentType::Unknown(s) => s@,
        }
    }

    /// Whether `value` is one of the wire values this crate knows.
    pub open spec fn is_known_wire(value: Seq<char>) -> bool {
        value == "input_text"@ || value == "input_audio"@ || value == "input_image"@
    }

    /// Parses a wire value while retaining unknown strings verbatim.
    pub fn from_raw(value: &str) -> (r: Self)
        ensures
            r.wire() == value@,
            (r is Unknown) == !Self::is_known_wire(value@),
    {
        if chars_eq(value, "input_text") {
            RealtimeUserContentType::InputText
        } else if chars_eq(value, "input_audio") {
            RealtimeUserContentType::InputAudio
        } else if chars_eq(value, "input_image") {
            RealtimeUserContentType::InputImage
        } else {
            RealtimeUserContentType::Unknown(value.to_owned())
        }
    }

    /// The exact string used on the wire.
    pub fn as_str(&self) -> (r: &str)
        ensures
            r@ == self.wire(),
    {
        match self {
            RealtimeUserContentType::InputText => "input_text",
            RealtimeUserContentType::InputAudio => "input_audio",
            RealtimeUserContentType::InputImage => "input_image",
            RealtimeUserContentType::Unknown(s) => s.as_str(),
        }
    }

    /// Whether this crate knows the wire value.
    pub fn is_known(&self) -> (r: bool)
        ensures
            r == !(self is Unknown),
    {
        match self {
            RealtimeUserContentType::Unknown(_) => false,
            _ => true,
        }
    }

    /// The raw value, only when it is unknown to this crate.
    pub fn unknown_value(&self) -> (r: Option<&str>)
        ensures
            match self {
                RealtimeUserContentType::Unknown(s) => r matches Some(x) && x@ == s@,
                _ => r is None,
            },
    {
        match self {
            RealtimeUserContentType::Unknown(s) => Some(s.as_str()),
            _ => None,
        }
    }
}

/// Content kind in an assistant message.
#[derive(Debug, Clone)]
pub enum RealtimeAssistantContentType {
    /// `output_text`.
    OutputText,
    /// `output_audio`.
    OutputAudio,
    /// A value added by the service after this crate was released.
    Unknown(String),
}

/// Each variant of [`RealtimeAssistantContentType`] stands for the wire value the API pairs
/// with it, and those values are exactly the ones known.
pub proof fn law_realtime_assistant_content_type_wire_values(value: Seq<char>)
    ensures
        RealtimeAssistantContentType::OutputText.wire() == "output_text"@,
        RealtimeAssistantContentType::OutputAudio.wire() == "output_audio"@,
        RealtimeAssistantContentType::is_known_wire(value) <==> (value == "output_text"@ || value == "output_audio"@),
{
}

impl RealtimeAssistantContentType {
    /// The exact string used on the wire.
    pub open spec fn wire(&self) -> Seq<char> {
        match self {
            RealtimeAssistantContentType::OutputText => "output_text"@,
            RealtimeAssistantContentType::OutputAudio => "output_audio"@,
            RealtimeAssistantContentType::Unknown(s) => s@,
        }
    }

    /// Whether `value` is one of the wire values this crate knows.
    pub open spec fn is_known_wire(value: Seq<char>) -> bool {
        value == "output_text"@ || value == "output_audio"@
    }

    /// Parses a wire value while retaining unknown strings verbatim.
    pub fn from_raw(value: &str) -> (r: Self)
        ensures
            r.wire() == value@,
            (r is Unknown) == !Self::is_known_wire(value@),
    {
        if chars_eq(value, "output_text") {
            RealtimeAssistantContentType::OutputText
        } else if chars_eq(value, "output_audio") {
            RealtimeAssistantContentType::OutputAudio
        } else {
            RealtimeAssistantContentType::Unknown(value.to_owned())
        }
    }

    /// The exact string used on the wire.
    pub fn as_str(&self) -> (r: &str)
        ensures
            r@ == self.wire(),
    {
        match self {
            RealtimeAssistantContentType::OutputText => "output_text",
            RealtimeAssistantContentType::OutputAudio => "output_audio",
            RealtimeAssistantContentType::Unknown(s) => s.as_str(),
        }
    }

    /// Whether this crate knows the wire value.
    pub fn is_known(&self) -> (r: bool)
        ensures
            r == !(self is Unknown),
    {
        match self {
            RealtimeAssistantContentType::Unknown(_) => false,
            _ => true,
        }
    }

    /// The raw value, only when it is unknown to this crate.
    pub fn unknown_value(&self) -> (r: Option<&str>)
        ensures
            match self {
                RealtimeAssistantContentType::Unknown(s) => r matches Some(x) && x@ == s@,
                _ => r is None,
            },
    {
        match self {
            RealtimeAssistantContentType::Unknown(s) => Some(s.as_str()),
            _ => None,
        }
    }
}

/// Conversation routing for one out-of-band or default response.
#[derive(Debug, Clone)]
pub enum RealtimeResponseConversation {
    /// `auto`.
    Auto,
    /// `none`.
    NoConversation,
    /// A value added by the service after this crate was released.
    Unknown(String),
}

/// Each variant of [`RealtimeResponseConversation`] stands for the wire value the API pairs
/// with it, and those values are exactly the ones known.
pub proof fn law_realtime_response_conversation_wire_values(value: Seq<char>)
    ensures
        RealtimeResponseConversation::Auto.wire() == "auto"@,
        RealtimeResponseConversation::NoConversation.wire() == "none"@,
        RealtimeResponseConversation::is_known_wire(value) <==> (value == "auto"@ || value == "none"@),
{
}

impl RealtimeResponseConversation {
    /// The exact string used on the wire.
    pub open spec fn wire(&self) -> Seq<char> {
        match self {
            RealtimeResponseConversation::Auto => "auto"@,
            RealtimeResponseConversation::NoConversation => "none"@,
            RealtimeResponseConversation::Unknown(s) => s@,
        }
    }

    /// Whether `value` is one of the wire values this crate knows.
    pub open spec fn is_known_wire(value: Seq<char>) -> bool {
        value == "auto"@ || value == "none"@
    }

    /// Parses a wire value while retaining unknown strings verbatim.
    pub fn from_raw(value: &str) -> (r: Self)
        ensures
            r.wire() == value@,
            (r is Unknown) == !Self::is_known_wire(value@),
    {
        if chars_eq(value, "auto") {
            RealtimeResponseConversation::Auto
        } else if chars_eq(value, "none") {
            RealtimeResponseConversation::NoConversation
        } else {
            RealtimeResponseConversation::Unknown(value.to_owned())
        }
    }

    /// The exact string used on the wire.
    pub fn as_str(&self) -> (r: &str)
        ensures
            r@ == self.wire(),
    {
        match self {
            RealtimeResponseConversation::Auto => "auto",
            RealtimeResponseConversation::NoConversation => "none",
            RealtimeResponseConversation::Unknown(s) => s.as_str(),
        }
    }

    /// Whether this crate knows the wire value.
    pub fn is_known(&self) -> (r: bool)
        ensures
            r == !(self is Unknown),
    {
        match self {
            RealtimeResponseConversation::Unknown(_) => false,
            _ => true,
        }
    }

    /// The raw value, only when it is unknown to this crate.
    pub fn unknown_value(&self) -> (r: Option<&str>)
        ensures
            match self {
                RealtimeResponseConversation::Unknown(s) => r matches Some(x) && x@ == s@,
                _ => r is None,
            },
    {
        match self {
            RealtimeResponseConversation::Unknown(s) => Some(s.as_str()),
            _ => None,
        }
    }
}

/// Type of a Realtime response content part.
#[derive(Debug, Clone)]
pub enum RealtimeResponseContentType {
    /// `audio`.
    Audio,
    /// `text`.
    Text,
    /// A value added by the service after this crate was released.
    Unknown(String),
}

/// Each variant of [`RealtimeResponseContentType`] stands for the wire value the API pairs
/// with it, and those values are exactly the ones known.
pub proof fn law_realtime_response_content_type_wire_values(value: Seq<char>)
    ensures
        RealtimeResponseContentType::Audio.wire() == "audio"@,
        RealtimeResponseContentType::Text.wire() == "text"@,
        RealtimeResponseContentType::is_known_wire(value) <==> (value == "audio"@ || value == "text"@),
{
}

impl RealtimeResponseContentType {
    /// The exact string used on the wire.
    pub open spec fn wire(&self) -> Seq<char> {
        match self {
            RealtimeResponseContentType::Audio => "audio"@,
            RealtimeResponseContentType::Text => "text"@,
            RealtimeResponseContentType::Unknown(s) => s@,
        }
    }

    /// Whether `value` is one of the wire values this crate knows.
    pub open spec fn is_known_wire(value: Seq<char>) -> bool {
        value == "audio"@ || value == "text"@
    }

    /// Parses a wire value while retaining unknown strings verbatim.
    pub fn from_raw(value: &str) -> (r: Self)
        ensures
            r.wire() == value@,
            (r is Unknown) == !Self::is_known_wire(value@),
    {
        if chars_eq(value, "audio") {
            RealtimeResponseContentType::Audio
        } else if chars_eq(value, "text") {
            RealtimeResponseContentType::Text
        } else {
            RealtimeResponseContentType::Unknown(value.to_owned())
        }
    }

    /// The exact string used on the wire.
    pub fn as_str(&self) -> (r: &str)
        ensures
            r@ == self.wire(),
    {
        match self {
            RealtimeResponseContentType::Audio => "audio",
            RealtimeResponseContentType::Text => "text",
            RealtimeResponseContentType::Unknown(s) => s.as_str(),
        }
    }

    /// Whether this crate knows the wire value.
    pub fn is_known(&self) -> (r: bool)
        ensures
            r == !(self is Unknown),
    {
        match self {
            RealtimeResponseContentType::Unknown(_) => false,
            _ => true,
        }
    }

    /// The raw value, only when it is unknown to this crate.
    pub fn unknown_value(&self) -> (r: Option<&str>)
        ensures
            match self {
                RealtimeResponseContentType::Unknown(s) => r matches Some(x) && x@ == s@,
                _ => r is None,
            },
    {
        match self {
            RealtimeResponseContentType::Unknown(s) => Some(s.as_str()),
            _ => None,
        }
    }
}

/// Encoding of a translation output-audio delta.
#[derive(Debug, Clone)]
pub enum RealtimeTranslationAudioFormat {
    /// `pcm16`.
    Pcm16,
    /// A value added by the service after this crate was released.
    Unknown(String),
}

/// Each variant of [`RealtimeTranslationAudioFormat`] stands for the wire value the API pairs
/// with it, and those values are exactly the ones known.
pub proof fn law_realtime_translation_audio_format_wire_values(value: Seq<char>)
    ensures
        RealtimeTranslationAudioFormat::Pcm16.wire() == "pcm16"@,
        RealtimeTranslationAudioFormat::is_known_wire(value) <==> (value == "pcm16"@),
{
}

impl RealtimeTranslationAudioFormat {
    /// The exact string used on the wire.
    pub open spec fn wire(&self) -> Seq<char> {
        match self {
            RealtimeTranslationAudioFormat::Pcm16 => "pcm16"@,
            RealtimeTranslationAudioFormat::Unknown(s) => s@,
        }
    }

    /// Whether `value` is one of the wire values this crate knows.
    pub open spec fn is_known_wire(value: Seq<char>) -> bool {
        value == "pcm16"@
    }

    /// Parses a wire value while retaining unknown strings verbatim.
    pub fn from_raw(value: &str) -> (r: Self)
        ensures
            r.wire() == value@,
            (r is Unknown) == !Self::is_known_wire(value@),
    {
        if chars_eq(value, "pcm16") {
            RealtimeTranslationAudioFormat::Pcm16
        } else {
            RealtimeTranslationAudioFormat::Unknown(value.to_owned())
        }
    }

    /// The exact string used on the wire.
    pub fn as_str(&self) -> (r: &str)
        ensures
            r@ == self.wire(),
    {
        match self {
            RealtimeTranslationAudioFormat::Pcm16 => "pcm16",
            RealtimeTranslationAudioFormat::Unknown(s) => s.as_str(),
        }
    }

    /// Whether this crate knows the wire value.
    pub fn is_known(&self) -> (r: bool)
        ensures
            r == !(self is Unknown),
    {
        match self {
            RealtimeTranslationAudioFormat::Unknown(_) => false,
            _ => true,
        }
    }

    /// The raw value, only when it is unknown to this crate.
    pub fn unknown_value(&self) -> (r: Option<&str>)
        ensures
            match self {
                RealtimeTranslationAudioFormat::Unknown(s) => r matches Some(x) && x@ == s@,
                _ => r is None,
            },
    {
        match self {
            RealtimeTranslationAudioFormat::Unknown(s) => Some(s.as_str()),
            _ => None,
        }
    }
}

} // verus!
