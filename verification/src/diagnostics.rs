//! Response diagnostics: prompt-cache outcomes and misalignment reports.
use vstd::prelude::*;
use crate::json::ExtraFields;
use crate::safety::SafetyAlertErrorType;
use crate::text::chars_eq;
use crate::wire::Omittable;

verus! {

/// Why a prompt-cache lookup missed.
#[derive(Debug, Clone)]
pub enum PromptCacheMissReason {
    /// `model_changed`.
    ModelChanged,
    /// `prompt_cache_key_changed`.
    PromptCacheKeyChanged,
    /// `tools_changed`.
    ToolsChanged,
    /// `text_format_changed`.
    TextFormatChanged,
    /// `reasoning_effort_changed`.
    ReasoningEffortChanged,
    /// `verbosity_changed`.
    VerbosityChanged,
    /// `context_compacted`.
    ContextCompacted,
    /// `input_changed`.
    InputChanged,
    /// `service_tier_changed`.
    ServiceTierChanged,
    /// A value added by the service after this crate was released.
    Unknown(String),
}

impl PromptCacheMissReason {
    /// The exact string used on the wire.
    pub open spec fn wire(&self) -> Seq<char> {
        match self {
            PromptCacheMissReason::ModelChanged => "model_changed"@,
            PromptCacheMissReason::PromptCacheKeyChanged => "prompt_cache_key_changed"@,
            PromptCacheMissReason::ToolsChanged => "tools_changed"@,
            PromptCacheMissReason::TextFormatChanged => "text_format_changed"@,
            PromptCacheMissReason::ReasoningEffortChanged => "reasoning_effort_changed"@,
            PromptCacheMissReason::VerbosityChanged => "verbosity_changed"@,
            PromptCacheMissReason::ContextCompacted => "context_compacted"@,
            PromptCacheMissReason::InputChanged => "input_changed"@,
            PromptCacheMissReason::ServiceTierChanged => "service_tier_changed"@,
            PromptCacheMissReason::Unknown(s) => s@,
        }
    }

    /// Whether `value` is one of the wire values this crate knows.
    pub open spec fn is_known_wire(value: Seq<char>) -> bool {
        value == "model_changed"@ || value == "prompt_cache_key_changed"@ || value == "tools_changed"@ || value == "text_format_changed"@ || value == "reasoning_effort_changed"@ || value == "verbosity_changed"@ || value == "context_compacted"@ || value == "input_changed"@ || value == "service_tier_changed"@
    }

    /// Parses a wire value while retaining unknown strings verbatim.
    pub fn from_raw(value: &str) -> (r: Self)
        ensures
            r.wire() == value@,
            (r is Unknown) == !Self::is_known_wire(value@),
    {
        if chars_eq(value, "model_changed") {
            PromptCacheMissReason::ModelChanged
        } else if chars_eq(value, "prompt_cache_key_changed") {
            PromptCacheMissReason::PromptCacheKeyChanged
        } else if chars_eq(value, "tools_changed") {
            PromptCacheMissReason::ToolsChanged
        } else if chars_eq(value, "text_format_changed") {
            PromptCacheMissReason::TextFormatChanged
        } else if chars_eq(value, "reasoning_effort_changed") {
            PromptCacheMissReason::ReasoningEffortChanged
        } else if chars_eq(value, "verbosity_changed") {
            PromptCacheMissReason::VerbosityChanged
        } else if chars_eq(value, "context_compacted") {
            PromptCacheMissReason::ContextCompacted
        } else if chars_eq(value, "input_changed") {
            PromptCacheMissReason::InputChanged
        } else if chars_eq(value, "service_tier_changed") {
            PromptCacheMissReason::ServiceTierChanged
        } else {
            PromptCacheMissReason::Unknown(value.to_owned())
        }
    }

    /// The exact string used on the wire.
    pub fn as_str(&self) -> (r: &str)
        ensures
            r@ == self.wire(),
    {
        match self {
            PromptCacheMissReason::ModelChanged => "model_changed",
            PromptCacheMissReason::PromptCacheKeyChanged => "prompt_cache_key_changed",
            PromptCacheMissReason::ToolsChanged => "tools_changed",
            PromptCacheMissReason::TextFormatChanged => "text_format_changed",
            PromptCacheMissReason::ReasoningEffortChanged => "reasoning_effort_changed",
            PromptCacheMissReason::VerbosityChanged => "verbosity_changed",
            PromptCacheMissReason::ContextCompacted => "context_compacted",
            PromptCacheMissReason::InputChanged => "input_changed",
            PromptCacheMissReason::ServiceTierChanged => "service_tier_changed",
            PromptCacheMissReason::Unknown(s) => s.as_str(),
        }
    }

    /// Whether this crate knows the wire value.
    pub fn is_known(&self) -> (r: bool)
        ensures
            r == !(self is Unknown),
    {
        match self {
            PromptCacheMissReason::Unknown(_) => false,
            _ => true,
        }
    }

    /// The raw value, only when it is unknown to this crate.
    pub fn unknown_value(&self) -> (r: Option<&str>)
        ensures
            match self {
                PromptCacheMissReason::Unknown(s) => r matches Some(x) && x@ == s@,
                _ => r is None,
            },
    {
        match self {
            PromptCacheMissReason::Unknown(s) => Some(s.as_str()),
            _ => None,
        }
    }
}

/// A prompt-cache miss (`"type": "cache_miss"`).
#[derive(Clone, Debug)]
pub struct PromptCacheMiss {
    pub cache_missed_tokens: i64,
    pub reason: PromptCacheMissReason,
    pub comparison_reusable_tokens: Omittable<i64>,
    pub extra: ExtraFields,
}

impl PromptCacheMiss {
    /// Tokens that missed the cache.
    pub fn cache_missed_tokens(&self) -> (r: i64)
        ensures
            r == self.cache_missed_tokens,
    {
        self.cache_missed_tokens
    }

    /// Why the lookup missed.
    pub fn reason(&self) -> (r: &PromptCacheMissReason)
        ensures
            r.wire() == self.reason.wire(),
    {
        &self.reason
    }

    /// Tokens of the comparison response that could have been reused, when given.
    pub fn comparison_reusable_tokens(&self) -> (r: Option<i64>)
        ensures
            match self.comparison_reusable_tokens {
                Omittable::Value(v) => r == Some(v),
                Omittable::Omitted => r is None,
            },
    {
        match self.comparison_reusable_tokens {
            Omittable::Value(v) => Some(v),
            Omittable::Omitted => None,
        }
    }

    /// Members not modelled here, kept as received.
    pub fn extra_fields(&self) -> (r: &ExtraFields)
        ensures
            r@ == self.extra@,
    {
        &self.extra
    }
}

/// A prompt-cache hit (`"type": "cache_hit"`).
#[derive(Clone, Debug)]
pub struct PromptCacheHit {
    pub extra: ExtraFields,
}

/// The requested comparison response was not found
/// (`"type": "comparison_response_not_found"`).
#[derive(Clone, Debug)]
pub struct ComparisonResponseNotFound {
    pub extra: ExtraFields,
}

/// Prompt-cache diagnostics are unavailable (`"type": "unavailable"`).
#[derive(Clone, Debug)]
pub struct PromptCacheUnavailable {
    pub extra: ExtraFields,
}

/// Prompt-cache diagnostics of a response, by their `type`.
#[derive(Clone, Debug)]
pub enum PromptCacheDiagnostics {
    CacheMiss(PromptCacheMiss),
    CacheHit(PromptCacheHit),
    ComparisonResponseNotFound(ComparisonResponseNotFound),
    Unavailable(PromptCacheUnavailable),
    /// A diagnostic of a `type` added after this crate was released: its tag
    /// and its members as received.
    Unknown { tag: String, members: ExtraFields },
}

impl PromptCacheDiagnostics {
    /// The `type` tag of the diagnostic.
    pub fn tag(&self) -> (r: &str)
        ensures
            r@ == match self {
                PromptCacheDiagnostics::CacheMiss(_) => "cache_miss"@,
                PromptCacheDiagnostics::CacheHit(_) => "cache_hit"@,
                PromptCacheDiagnostics::ComparisonResponseNotFound(_) => "comparison_response_not_found"@,
                PromptCacheDiagnostics::Unavailable(_) => "unavailable"@,
                PromptCacheDiagnostics::Unknown { tag, .. } => tag@,
            },
    {
        match self {
            PromptCacheDiagnostics::CacheMiss(_) => "cache_miss",
            PromptCacheDiagnostics::CacheHit(_) => "cache_hit",
            PromptCacheDiagnostics::ComparisonResponseNotFound(_) => "comparison_response_not_found",
            PromptCacheDiagnostics::Unavailable(_) => "unavailable",
            PromptCacheDiagnostics::Unknown { tag, .. } => tag.as_str(),
        }
    }
}

impl PromptCacheHit {
    /// Members not modelled here, kept as received.
    pub fn extra_fields(&self) -> (r: &ExtraFields)
        ensures
            r@ == self.extra@,
    {
        &self.extra
    }
}

impl ComparisonResponseNotFound {
    /// Members not modelled here, kept as received.
    pub fn extra_fields(&self) -> (r: &ExtraFields)
        ensures
            r@ == self.extra@,
    {
        &self.extra
    }
}

impl PromptCacheUnavailable {
    /// Members not modelled here, kept as received.
    pub fn extra_fields(&self) -> (r: &ExtraFields)
        ensures
            r@ == self.extra@,
    {
        &self.extra
    }
}

/// A report that a response may not follow the intended task.
#[derive(Clone, Debug)]
pub struct ResponseMisalignment {
    pub detailed_explanation: Omittable<String>,
    pub error_type: Omittable<SafetyAlertErrorType>,
    pub steer: Omittable<ResponseMisalignmentSteer>,
    pub extra: ExtraFields,
}

impl ResponseMisalignment {
    /// The detailed explanation, when given.
    pub fn detailed_explanation(&self) -> (r: Option<&str>)
        ensures
            match self.detailed_explanation {
                Omittable::Value(v) => (r matches Some(x) && x@ == v@),
                Omittable::Omitted => r is None,
            },
    {
        match &self.detailed_explanation {
            Omittable::Value(v) => Some(v.as_str()),
            Omittable::Omitted => None,
        }
    }

    /// The reported category, when given.
    pub fn error_type(&self) -> (r: Option<&SafetyAlertErrorType>)
        ensures
            match self.error_type {
                Omittable::Value(v) => r == Some(&v),
                Omittable::Omitted => r is None,
            },
    {
        match &self.error_type {
            Omittable::Value(v) => Some(v),
            Omittable::Omitted => None,
        }
    }

    /// The steering suggestion, when given.
    pub fn steer(&self) -> (r: Option<&ResponseMisalignmentSteer>)
        ensures
            match self.steer {
                Omittable::Value(v) => r == Some(&v),
                Omittable::Omitted => r is None,
            },
    {
        match &self.steer {
            Omittable::Value(v) => Some(v),
            Omittable::Omitted => None,
        }
    }

    /// Members not modelled here, kept as received.
    pub fn extra_fields(&self) -> (r: &ExtraFields)
        ensures
            r@ == self.extra@,
    {
        &self.extra
    }
}

/// A steering suggestion of a misalignment report.
#[derive(Clone, Debug)]
pub struct ResponseMisalignmentSteer {
    pub message: String,
    pub extra: ExtraFields,
}

impl ResponseMisalignmentSteer {
    /// The suggested message.
    pub fn message(&self) -> (r: &str)
        ensures
            r@ == self.message@,
    {
        self.message.as_str()
    }

    /// Members not modelled here, kept as received.
    pub fn extra_fields(&self) -> (r: &ExtraFields)
        ensures
            r@ == self.extra@,
    {
        &self.extra
    }
}

} // verus!
