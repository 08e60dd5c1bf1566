//! Project safety alert types.
use vstd::prelude::*;
use crate::json::ExtraFields;
use crate::scalar::ModelId;
use crate::text::chars_eq;
use crate::wire::Nullable;

verus! {

/// The category of activity flagged for review.
#[derive(Debug, Clone)]
pub enum SafetyAlertErrorType {
    /// `potentially_unintended_data_transfer`.
    PotentiallyUnintendedDataTransfer,
    /// `potentially_unintended_data_access`.
    PotentiallyUnintendedDataAccess,
    /// `potentially_unintended_destructive_activity`.
    PotentiallyUnintendedDestructiveActivity,
    /// `other`.
    Other,
    /// A value added by the service after this crate was released.
    Unknown(String),
}

/// Each variant of [`SafetyAlertErrorType`] stands for the wire value the API pairs
/// with it, and those values are exactly the ones known.
pub proof fn law_safety_alert_error_type_wire_values(value: Seq<char>)
    ensures
        SafetyAlertErrorType::PotentiallyUnintendedDataTransfer.wire() == "potentially_unintended_data_transfer"@,
        SafetyAlertErrorType::PotentiallyUnintendedDataAccess.wire() == "potentially_unintended_data_access"@,
        SafetyAlertErrorType::PotentiallyUnintendedDestructiveActivity.wire() == "potentially_unintended_destructive_activity"@,
        SafetyAlertErrorType::Other.wire() == "other"@,
        SafetyAlertErrorType::is_known_wire(value) <==> (value == "potentially_unintended_data_transfer"@ || value == "potentially_unintended_data_access"@ || value == "potentially_unintended_destructive_activity"@ || value == "other"@),
{
}

impl SafetyAlertErrorType {
    /// The exact string used on the wire.
    pub open spec fn wire(&self) -> Seq<char> {
        match self {
            SafetyAlertErrorType::PotentiallyUnintendedDataTransfer => "potentially_unintended_data_transfer"@,
            SafetyAlertErrorType::PotentiallyUnintendedDataAccess => "potentially_unintended_data_access"@,
            SafetyAlertErrorType::PotentiallyUnintendedDestructiveActivity => "potentially_unintended_destructive_activity"@,
            SafetyAlertErrorType::Other => "other"@,
            SafetyAlertErrorType::Unknown(s) => s@,
        }
    }

    /// Whether `value` is one of the wire values this crate knows.
    pub open spec fn is_known_wire(value: Seq<char>) -> bool {
        value == "potentially_unintended_data_transfer"@ || value == "potentially_unintended_data_access"@ || value == "potentially_unintended_destructive_activity"@ || value == "other"@
    }

    /// Parses a wire value while retaining unknown strings verbatim.
    pub fn from_raw(value: &str) -> (r: Self)
        ensures
            r.wire() == value@,
            (r is Unknown) == !Self::is_known_wire(value@),
    {
        if chars_eq(value, "potentially_unintended_data_transfer") {
            SafetyAlertErrorType::PotentiallyUnintendedDataTransfer
        } else if chars_eq(value, "potentially_unintended_data_access") {
            SafetyAlertErrorType::PotentiallyUnintendedDataAccess
        } else if chars_eq(value, "potentially_unintended_destructive_activity") {
            SafetyAlertErrorType::PotentiallyUnintendedDestructiveActivity
        } else if chars_eq(value, "other") {
            SafetyAlertErrorType::Other
        } else {
            SafetyAlertErrorType::Unknown(value.to_owned())
        }
    }

    /// The exact string used on the wire.
    pub fn as_str(&self) -> (r: &str)
        ensures
            r@ == self.wire(),
    {
        match self {
            SafetyAlertErrorType::PotentiallyUnintendedDataTransfer => "potentially_unintended_data_transfer",
            SafetyAlertErrorType::PotentiallyUnintendedDataAccess => "potentially_unintended_data_access",
            SafetyAlertErrorType::PotentiallyUnintendedDestructiveActivity => "potentially_unintended_destructive_activity",
            SafetyAlertErrorType::Other => "other",
            SafetyAlertErrorType::Unknown(s) => s.as_str(),
        }
    }

    /// Whether this crate knows the wire value.
    pub fn is_known(&self) -> (r: bool)
        ensures
            r == !(self is Unknown),
    {
        match self {
            SafetyAlertErrorType::Unknown(_) => false,
            _ => true,
        }
    }

    /// The raw value, only when it is unknown to this crate.
    pub fn unknown_value(&self) -> (r: Option<&str>)
        ensures
            match self {
                SafetyAlertErrorType::Unknown(s) => r matches Some(x) && x@ == s@,
                _ => r is None,
            },
    {
        match self {
            SafetyAlertErrorType::Unknown(s) => Some(s.as_str()),
            _ => None,
        }
    }
}

/// Object discriminator for a project safety alert.
#[derive(Debug, Clone, Copy, PartialEq, Eq, Structural)]
pub enum SafetyAlertObject {
    /// A safety alert of the authenticated API project.
    SafetyAlert,
}

impl SafetyAlertObject {
    /// The wire discriminator, `safety.alert`.
    pub fn as_str(&self) -> (r: &'static str)
        ensures
            r@ == "safety.alert"@,
    {
        match self {
            SafetyAlertObject::SafetyAlert => "safety.alert",
        }
    }
}


/// A project safety alert.
#[derive(Clone, Debug)]
pub struct SafetyAlert {
    pub id: String,
    /// Creation time in Unix seconds, as its JSON number text.
    pub created_at: String,
    pub error_type: SafetyAlertErrorType,
    pub model: ModelId,
    pub object: SafetyAlertObject,
    pub reason: Nullable<String>,
    pub request_id: String,
    pub request_paused: bool,
    pub response_id: String,
    pub extra: ExtraFields,
}

impl SafetyAlert {
    /// The object tag.
    pub fn object(&self) -> (r: &SafetyAlertObject)
        ensures
            r == &self.object,
    {
        &self.object
    }

    /// The alert identifier carried by webhook `data.id`.
    pub fn id(&self) -> (r: &str)
        ensures
            r@ == self.id@,
    {
        self.id.as_str()
    }

    /// The reported category, future values kept.
    pub fn error_type(&self) -> (r: &SafetyAlertErrorType)
        ensures
            r == &self.error_type,
    {
        &self.error_type
    }

    /// The model of the alert.
    pub fn model(&self) -> (r: &ModelId)
        ensures
            r == &self.model,
    {
        &self.model
    }

    /// A description for the customer; `null` is valid.
    pub fn reason(&self) -> (r: &Nullable<String>)
        ensures
            r == &self.reason,
    {
        &self.reason
    }

    /// The affected request.
    pub fn request_id(&self) -> (r: &str)
        ensures
            r@ == self.request_id@,
    {
        self.request_id.as_str()
    }

    /// Whether block registration succeeded; it does not show that
    /// execution stopped.
    pub fn request_paused(&self) -> (r: bool)
        ensures
            r == self.request_paused,
    {
        self.request_paused
    }

    /// The affected response.
    pub fn response_id(&self) -> (r: &str)
        ensures
            r@ == self.response_id@,
    {
        self.response_id.as_str()
    }

    /// Members not modelled here, kept as received.
    pub fn extra_fields(&self) -> (r: &ExtraFields)
        ensures
            r@ == self.extra@,
    {
        &self.extra
    }
}

} // verus!
