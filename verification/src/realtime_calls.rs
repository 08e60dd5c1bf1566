//! Realtime translation sessions, client secrets, SIP calls and the
//! incoming-call webhook.
use vstd::prelude::*;
use crate::json::{ExtraFields, Json};
use crate::realtime::{
    CreateRealtimeSessionConstraintError, expiration_seconds_check, validate_expiration_seconds,
};
use crate::realtime_enums::RealtimeNoiseReductionType;
use crate::secret::WireSecret;
use crate::wire::{Nullable, Omittable};

verus! {

/// The `created_at` anchor of a translation client-secret lifetime.
#[derive(Debug, Clone, Copy, PartialEq, Eq, Structural)]
pub enum RealtimeTranslationExpirationAnchor {
    /// `created_at`.
    CreatedAt,
}

/// Lifetime of a translation client secret.  The `10..=7200` range is
/// checked by [`RealtimeTranslationClientSecretCreateRequest::validate`],
/// not on construction or decoding.
#[derive(Clone, Debug)]
pub struct RealtimeTranslationClientSecretExpiration {
    pub anchor: Omittable<RealtimeTranslationExpirationAnchor>,
    pub seconds: Omittable<i64>,
    pub extra: ExtraFields,
}

impl Default for RealtimeTranslationClientSecretExpiration {
    fn default() -> (r: Self)
        ensures
            r.anchor is Omitted,
            r.seconds is Omitted,
            r.extra@ == Seq::<(Seq<char>, Json)>::empty(),
    {
        RealtimeTranslationClientSecretExpiration {
            anchor: Omittable::Omitted,
            seconds: Omittable::Omitted,
            extra: ExtraFields::new(),
        }
    }
}

impl RealtimeTranslationClientSecretExpiration {
    /// A `created_at`-anchored lifetime of `seconds` seconds.
    pub fn new(seconds: i64) -> (r: Self)
        ensures
            r.anchor == Omittable::Value(RealtimeTranslationExpirationAnchor::CreatedAt),
            r.seconds == Omittable::Value(seconds),
            r.extra@ == Seq::<(Seq<char>, Json)>::empty(),
    {
        RealtimeTranslationClientSecretExpiration {
            anchor: Omittable::Value(RealtimeTranslationExpirationAnchor::CreatedAt),
            seconds: Omittable::Value(seconds),
            extra: ExtraFields::new(),
        }
    }

    /// The lifetime in seconds, when present.
    pub fn seconds(&self) -> (r: Option<i64>)
        ensures
            match self.seconds {
                Omittable::Value(s) => r == Some(s),
                Omittable::Omitted => r is None,
            },
    {
        match self.seconds {
            Omittable::Value(s) => Some(s),
            Omittable::Omitted => None,
        }
    }

    /// Members not modelled here, kept as received.
    pub fn extra_fields(&self) -> (r: &ExtraFields)
        ensures
            r@ == self.extra@,
    {
        &self.extra
    }
}

/// The source-transcription model of a translation session.
#[derive(Clone, Debug)]
pub struct RealtimeTranslationTranscription {
    pub model: String,
    pub extra: ExtraFields,
}

impl RealtimeTranslationTranscription {
    /// A transcription by `model`.
    pub fn new(model: &str) -> (r: Self)
        ensures
            r.model@ == model@,
            r.extra@ == Seq::<(Seq<char>, Json)>::empty(),
    {
        RealtimeTranslationTranscription { model: model.to_owned(), extra: ExtraFields::new() }
    }

    /// Members not modelled here, kept as received.
    pub fn extra_fields(&self) -> (r: &ExtraFields)
        ensures
            r@ == self.extra@,
    {
        &self.extra
    }
}

/// The input noise-reduction mode of a translation session.
#[derive(Clone, Debug)]
pub struct RealtimeTranslationNoiseReduction {
    pub kind: RealtimeNoiseReductionType,
    pub extra: ExtraFields,
}

impl RealtimeTranslationNoiseReduction {
    /// Noise reduction of kind `kind`.
    pub fn new(kind: RealtimeNoiseReductionType) -> (r: Self)
        ensures
            r.kind == kind,
            r.extra@ == Seq::<(Seq<char>, Json)>::empty(),
    {
        RealtimeTranslationNoiseReduction { kind, extra: ExtraFields::new() }
    }

    /// Members not modelled here, kept as received.
    pub fn extra_fields(&self) -> (r: &ExtraFields)
        ensures
            r@ == self.extra@,
    {
        &self.extra
    }
}

/// Input-audio settings of a translation session; each may be left out or
/// set to `null`.
#[derive(Clone, Debug)]
pub struct RealtimeTranslationAudioInput {
    pub transcription: Omittable<Nullable<RealtimeTranslationTranscription>>,
    pub noise_reduction: Omittable<Nullable<RealtimeTranslationNoiseReduction>>,
    pub extra: ExtraFields,
}

impl Default for RealtimeTranslationAudioInput {
    fn default() -> (r: Self)
        ensures
            r.transcription is Omitted,
            r.noise_reduction is Omitted,
            r.extra@ == Seq::<(Seq<char>, Json)>::empty(),
    {
        RealtimeTranslationAudioInput {
            transcription: Omittable::Omitted,
            noise_reduction: Omittable::Omitted,
            extra: ExtraFields::new(),
        }
    }
}

impl RealtimeTranslationAudioInput {
    /// Sets the transcription.
    pub fn with_transcription(self, value: RealtimeTranslationTranscription) -> (r: Self)
        ensures
            r.transcription == Omittable::Value(Nullable::Value(value)),
            r.noise_reduction == self.noise_reduction,
            r.extra@ == self.extra@,
    {
        RealtimeTranslationAudioInput {
            transcription: Omittable::Value(Nullable::Value(value)),
            noise_reduction: self.noise_reduction,
            extra: self.extra,
        }
    }

    /// Sets the transcription to an explicit `null`.
    pub fn with_transcription_null(self) -> (r: Self)
        ensures
            r.transcription == Omittable::<Nullable<RealtimeTranslationTranscription>>::Value(
                Nullable::Null,
            ),
            r.noise_reduction == self.noise_reduction,
            r.extra@ == self.extra@,
    {
        RealtimeTranslationAudioInput {
            transcription: Omittable::Value(Nullable::Null),
            noise_reduction: self.noise_reduction,
            extra: self.extra,
        }
    }

    /// Leaves the transcription out.
    pub fn clear_transcription(self) -> (r: Self)
        ensures
            r.transcription is Omitted,
            r.noise_reduction == self.noise_reduction,
            r.extra@ == self.extra@,
    {
        RealtimeTranslationAudioInput {
            transcription: Omittable::Omitted,
            noise_reduction: self.noise_reduction,
            extra: self.extra,
        }
    }

    /// Sets the noise reduction.
    pub fn with_noise_reduction(self, value: RealtimeTranslationNoiseReduction) -> (r: Self)
        ensures
            r.noise_reduction == Omittable::Value(Nullable::Value(value)),
            r.transcription == self.transcription,
            r.extra@ == self.extra@,
    {
        RealtimeTranslationAudioInput {
            transcription: self.transcription,
            noise_reduction: Omittable::Value(Nullable::Value(value)),
            extra: self.extra,
        }
    }

    /// Sets the noise reduction to an explicit `null`.
    pub fn with_noise_reduction_null(self) -> (r: Self)
        ensures
            r.noise_reduction == Omittable::<Nullable<RealtimeTranslationNoiseReduction>>::Value(
                Nullable::Null,
            ),
            r.transcription == self.transcription,
            r.extra@ == self.extra@,
    {
        RealtimeTranslationAudioInput {
            transcription: self.transcription,
            noise_reduction: Omittable::Value(Nullable::Null),
            extra: self.extra,
        }
    }

    /// Leaves the noise reduction out.
    pub fn clear_noise_reduction(self) -> (r: Self)
        ensures
            r.noise_reduction is Omitted,
            r.transcription == self.transcription,
            r.extra@ == self.extra@,
    {
        RealtimeTranslationAudioInput {
            transcription: self.transcription,
            noise_reduction: Omittable::Omitted,
            extra: self.extra,
        }
    }

    /// Members not modelled here, kept as received.
    pub fn extra_fields(&self) -> (r: &ExtraFields)
        ensures
            r@ == self.extra@,
    {
        &self.extra
    }
}

/// Output-audio settings of a translation session.
#[derive(Clone, Debug)]
pub struct RealtimeTranslationAudioOutput {
    pub language: Omittable<String>,
    pub extra: ExtraFields,
}

impl Default for RealtimeTranslationAudioOutput {
    fn default() -> (r: Self)
        ensures
            r.language is Omitted,
            r.extra@ == Seq::<(Seq<char>, Json)>::empty(),
    {
        RealtimeTranslationAudioOutput { language: Omittable::Omitted, extra: ExtraFields::new() }
    }
}

impl RealtimeTranslationAudioOutput {
    /// Output in `language`.
    pub fn new(language: &str) -> (r: Self)
        ensures
            r.language matches Omittable::Value(l) && l@ == language@,
            r.extra@ == Seq::<(Seq<char>, Json)>::empty(),
    {
        RealtimeTranslationAudioOutput {
            language: Omittable::Value(language.to_owned()),
            extra: ExtraFields::new(),
        }
    }

    /// Members not modelled here, kept as received.
    pub fn extra_fields(&self) -> (r: &ExtraFields)
        ensures
            r@ == self.extra@,
    {
        &self.extra
    }
}

/// Input and output audio of a translation session.
#[derive(Clone, Debug)]
pub struct RealtimeTranslationAudio {
    pub input: Omittable<RealtimeTranslationAudioInput>,
    pub output: Omittable<RealtimeTranslationAudioOutput>,
    pub extra: ExtraFields,
}

impl Default for RealtimeTranslationAudio {
    fn default() -> (r: Self)
        ensures
            r.input is Omitted,
            r.output is Omitted,
            r.extra@ == Seq::<(Seq<char>, Json)>::empty(),
    {
        RealtimeTranslationAudio {
            input: Omittable::Omitted,
            output: Omittable::Omitted,
            extra: ExtraFields::new(),
        }
    }
}

impl RealtimeTranslationAudio {
    /// Sets the input settings.
    pub fn with_input(self, input: RealtimeTranslationAudioInput) -> (r: Self)
        ensures
            r.input == Omittable::Value(input),
            r.output == self.output,
            r.extra@ == self.extra@,
    {
        RealtimeTranslationAudio { input: Omittable::Value(input), output: self.output, extra: self.extra }
    }

    /// Sets the output settings.
    pub fn with_output(self, output: RealtimeTranslationAudioOutput) -> (r: Self)
        ensures
            r.output == Omittable::Value(output),
            r.input == self.input,
            r.extra@ == self.extra@,
    {
        RealtimeTranslationAudio { input: self.input, output: Omittable::Value(output), extra: self.extra }
    }

    /// Members not modelled here, kept as received.
    pub fn extra_fields(&self) -> (r: &ExtraFields)
        ensures
            r@ == self.extra@,
    {
        &self.extra
    }
}

/// Configuration that creates a translation session.
#[derive(Clone, Debug)]
pub struct RealtimeTranslationSessionCreateRequest {
    pub model: String,
    pub audio: Omittable<RealtimeTranslationAudio>,
    pub extra: ExtraFields,
}

impl RealtimeTranslationSessionCreateRequest {
    /// A session of `model` with default audio.
    pub fn new(model: &str) -> (r: Self)
        ensures
            r.model@ == model@,
            r.audio is Omitted,
            r.extra@ == Seq::<(Seq<char>, Json)>::empty(),
    {
        RealtimeTranslationSessionCreateRequest {
            model: model.to_owned(),
            audio: Omittable::Omitted,
            extra: ExtraFields::new(),
        }
    }

    /// Sets the audio settings.
    pub fn with_audio(self, audio: RealtimeTranslationAudio) -> (r: Self)
        ensures
            r.audio == Omittable::Value(audio),
            r.model == self.model,
            r.extra@ == self.extra@,
    {
        RealtimeTranslationSessionCreateRequest {
            model: self.model,
            audio: Omittable::Value(audio),
            extra: self.extra,
        }
    }

    /// Members not modelled here, kept as received.
    pub fn extra_fields(&self) -> (r: &ExtraFields)
        ensures
            r@ == self.extra@,
    {
        &self.extra
    }
}

/// A translation session as the service reports it.
#[derive(Clone, Debug)]
pub struct RealtimeTranslationSession {
    pub id: String,
    pub expires_at: i64,
    pub model: String,
    pub audio: RealtimeTranslationAudio,
    pub extra: ExtraFields,
}

impl RealtimeTranslationSession {
    /// Members not modelled here, kept as received.
    pub fn extra_fields(&self) -> (r: &ExtraFields)
        ensures
            r@ == self.extra@,
    {
        &self.extra
    }
}

/// The updatable fields of a translation session.
#[derive(Clone, Debug)]
pub struct RealtimeTranslationSessionUpdateRequest {
    pub audio: Omittable<RealtimeTranslationAudio>,
    pub extra: ExtraFields,
}

impl Default for RealtimeTranslationSessionUpdateRequest {
    fn default() -> (r: Self)
        ensures
            r.audio is Omitted,
            r.extra@ == Seq::<(Seq<char>, Json)>::empty(),
    {
        RealtimeTranslationSessionUpdateRequest { audio: Omittable::Omitted, extra: ExtraFields::new() }
    }
}

impl RealtimeTranslationSessionUpdateRequest {
    /// An update that changes nothing.
    pub fn new() -> (r: Self)
        ensures
            r.audio is Omitted,
            r.extra@ == Seq::<(Seq<char>, Json)>::empty(),
    {
        RealtimeTranslationSessionUpdateRequest { audio: Omittable::Omitted, extra: ExtraFields::new() }
    }

    /// Sets the audio settings.
    pub fn with_audio(self, audio: RealtimeTranslationAudio) -> (r: Self)
        ensures
            r.audio == Omittable::Value(audio),
            r.extra@ == self.extra@,
    {
        RealtimeTranslationSessionUpdateRequest { audio: Omittable::Value(audio), extra: self.extra }
    }

    /// Members not modelled here, kept as received.
    pub fn extra_fields(&self) -> (r: &ExtraFields)
        ensures
            r@ == self.extra@,
    {
        &self.extra
    }
}

/// A request for a translation-session client secret.
#[derive(Clone, Debug)]
pub struct RealtimeTranslationClientSecretCreateRequest {
    pub expires_after: Omittable<RealtimeTranslationClientSecretExpiration>,
    pub session: RealtimeTranslationSessionCreateRequest,
    pub extra: ExtraFields,
}

/// The lifetime a translation client-secret request asks for.
pub open spec fn requested_seconds(request: RealtimeTranslationClientSecretCreateRequest) -> Omittable<i64> {
    match request.expires_after {
        Omittable::Value(e) => e.seconds,
        Omittable::Omitted => Omittable::Omitted,
    }
}

impl RealtimeTranslationClientSecretCreateRequest {
    /// A request with the default lifetime.
    pub fn new(session: RealtimeTranslationSessionCreateRequest) -> (r: Self)
        ensures
            r.expires_after is Omitted,
            r.session == session,
            r.extra@ == Seq::<(Seq<char>, Json)>::empty(),
    {
        RealtimeTranslationClientSecretCreateRequest {
            expires_after: Omittable::Omitted,
            session,
            extra: ExtraFields::new(),
        }
    }

    /// Checks that a present lifetime lies in `10..=7200` seconds; decoding
    /// keeps any integer.
    pub fn validate(&self) -> (r: Result<(), CreateRealtimeSessionConstraintError>)
        ensures
            r == expiration_seconds_check(requested_seconds(*self)),
    {
        match &self.expires_after {
            Omittable::Value(e) => validate_expiration_seconds(&e.seconds),
            Omittable::Omitted => Ok(()),
        }
    }

    /// Sets the lifetime.
    pub fn with_expires_after(self, expiration: RealtimeTranslationClientSecretExpiration) -> (r: Self)
        ensures
            r.expires_after == Omittable::Value(expiration),
            r.session == self.session,
            r.extra@ == self.extra@,
    {
        RealtimeTranslationClientSecretCreateRequest {
            expires_after: Omittable::Value(expiration),
            session: self.session,
            extra: self.extra,
        }
    }

    /// Goes back to the default lifetime.
    pub fn clear_expires_after(self) -> (r: Self)
        ensures
            r.expires_after is Omitted,
            r.session == self.session,
            r.extra@ == self.extra@,
    {
        RealtimeTranslationClientSecretCreateRequest {
            expires_after: Omittable::Omitted,
            session: self.session,
            extra: self.extra,
        }
    }

    /// Members not modelled here, kept as received.
    pub fn extra_fields(&self) -> (r: &ExtraFields)
        ensures
            r@ == self.extra@,
    {
        &self.extra
    }
}

/// A translation client secret with its session.
#[derive(Clone)]
pub struct RealtimeTranslationClientSecretCreateResponse {
    pub value: WireSecret,
    pub expires_at: i64,
    pub session: RealtimeTranslationSession,
    pub extra: ExtraFields,
}

impl RealtimeTranslationClientSecretCreateResponse {
    /// Members not modelled here, kept as received.
    pub fn extra_fields(&self) -> (r: &ExtraFields)
        ensures
            r@ == self.extra@,
    {
        &self.extra
    }
}

/// Session Description Protocol text, kept exactly as given.
#[derive(Debug, Clone)]
pub struct RealtimeSdp(pub String);

impl View for RealtimeSdp {
    type V = Seq<char>;

    open spec fn view(&self) -> Seq<char> {
        self.0@
    }
}

impl RealtimeSdp {
    /// Wraps SDP text without normalizing line endings or attributes.
    pub fn new(value: &str) -> (r: Self)
        ensures
            r@ == value@,
    {
        RealtimeSdp(value.to_owned())
    }

    /// The SDP text.
    pub fn as_str(&self) -> (r: &str)
        ensures
            r@ == self@,
    {
        self.0.as_str()
    }
}

/// A request to reject an incoming SIP call.
#[derive(Clone, Debug)]
pub struct RealtimeCallRejectRequest {
    pub status_code: Omittable<i64>,
    pub extra: ExtraFields,
}

impl Default for RealtimeCallRejectRequest {
    fn default() -> (r: Self)
        ensures
            r.status_code is Omitted,
            r.extra@ == Seq::<(Seq<char>, Json)>::empty(),
    {
        RealtimeCallRejectRequest { status_code: Omittable::Omitted, extra: ExtraFields::new() }
    }
}

impl RealtimeCallRejectRequest {
    /// A rejection with the service's default status.
    pub fn new() -> (r: Self)
        ensures
            r.status_code is Omitted,
            r.extra@ == Seq::<(Seq<char>, Json)>::empty(),
    {
        RealtimeCallRejectRequest { status_code: Omittable::Omitted, extra: ExtraFields::new() }
    }

    /// The request with an explicit SIP rejection status.
    pub open spec fn spec_with_status_code(self, status_code: i64) -> Self {
        RealtimeCallRejectRequest { status_code: Omittable::Value(status_code), ..self }
    }

    /// The request with the service's default status.
    pub open spec fn spec_cleared(self) -> Self {
        RealtimeCallRejectRequest { status_code: Omittable::Omitted, ..self }
    }

    /// Sends an explicit SIP rejection status.
    pub fn with_status_code(self, status_code: i64) -> (r: Self)
        ensures
            r == self.spec_with_status_code(status_code),
            r.status_code == Omittable::Value(status_code),
            r.extra@ == self.extra@,
    {
        RealtimeCallRejectRequest { status_code: Omittable::Value(status_code), extra: self.extra }
    }

    /// Goes back to the service's default status.
    pub fn clear_status_code(self) -> (r: Self)
        ensures
            r == self.spec_cleared(),
            r.status_code is Omitted,
            r.extra@ == self.extra@,
    {
        RealtimeCallRejectRequest { status_code: Omittable::Omitted, extra: self.extra }
    }

    /// Members not modelled here, kept as received.
    pub fn extra_fields(&self) -> (r: &ExtraFields)
        ensures
            r@ == self.extra@,
    {
        &self.extra
    }
}

/// Clearing the status code undoes setting one: a request that sent the
/// service's default status is given back unchanged, and any request ends up
/// as if no status had ever been set.
pub proof fn law_clear_status_code_undoes_with(r: RealtimeCallRejectRequest, status_code: i64)
    ensures
        r.spec_with_status_code(status_code).spec_cleared() == r.spec_cleared(),
        r.status_code is Omitted ==> r.spec_with_status_code(status_code).spec_cleared() == r,
{
}

/// The body-less call hangup operation.
#[derive(Debug, Clone, Copy, Default, PartialEq, Eq)]
pub struct RealtimeCallHangupRequest;

/// One SIP header of an incoming call.  Headers can carry credentials, so
/// the type has no `Debug`.
#[derive(Clone)]
pub struct RealtimeSipHeader {
    pub name: String,
    pub value: String,
    pub extra: ExtraFields,
}

impl RealtimeSipHeader {
    /// Members not modelled here, kept as received.
    pub fn extra_fields(&self) -> (r: &ExtraFields)
        ensures
            r@ == self.extra@,
    {
        &self.extra
    }
}

/// Data of a `realtime.call.incoming` event.
#[derive(Clone)]
pub struct RealtimeCallIncomingData {
    pub call_id: String,
    pub sip_headers: Vec<RealtimeSipHeader>,
    pub extra: ExtraFields,
}

impl RealtimeCallIncomingData {
    /// Number of SIP headers, without exposing any of them.
    pub fn sip_header_count(&self) -> (r: usize)
        ensures
            r == self.sip_headers@.len(),
    {
        self.sip_headers.len()
    }

    /// Members not modelled here, kept as received.
    pub fn extra_fields(&self) -> (r: &ExtraFields)
        ensures
            r@ == self.extra@,
    {
        &self.extra
    }
}

/// The incoming SIP-call webhook event.  Its optional `object = "event"`
/// marker is kept as whether it was present.
#[derive(Clone)]
pub struct WebhookRealtimeCallIncoming {
    pub created_at: i64,
    pub id: String,
    pub data: RealtimeCallIncomingData,
    pub object_marker: bool,
    pub extra: ExtraFields,
}

impl WebhookRealtimeCallIncoming {
    /// The event's tag.
    pub fn event_type(&self) -> (r: &'static str)
        ensures
            r@ == "realtime.call.incoming"@,
    {
        "realtime.call.incoming"
    }

    /// Whether the optional `object = "event"` marker was present.
    pub fn object_marker_present(&self) -> (r: bool)
        ensures
            r == self.object_marker,
    {
        self.object_marker
    }

    /// Members not modelled here, kept as received.
    pub fn extra_fields(&self) -> (r: &ExtraFields)
        ensures
            r@ == self.extra@,
    {
        &self.extra
    }
}

/// The translation client-secret request under its verb-first name.
pub type RealtimeCreateTranslationClientSecretRequest = RealtimeTranslationClientSecretCreateRequest;

/// The translation client-secret response under its verb-first name.
pub type RealtimeCreateTranslationClientSecretResponse = RealtimeTranslationClientSecretCreateResponse;

/// `url::Url`, an absolute URL parsed by the `url` crate.
#[verifier::external_type_specification]
#[verifier::external_body]
pub struct ExUrl(url::Url);

/// `url::ParseError`, why the `url` crate refused a URL.
#[verifier::external_type_specification]
#[verifier::external_body]
pub struct ExUrlParseError(url::ParseError);

/// Whether `url::Url::parse` accepts `input` as an absolute URL.
pub uninterp spec fn url_parses(input: Seq<char>) -> bool;

/// The URL that `url::Url::parse` gives back for an input it accepts.
pub uninterp spec fn url_parsed(input: Seq<char>) -> url::Url;

/// Parses an absolute URL with `url::Url::parse`: it succeeds exactly on
/// the inputs [`url_parses`] names, and the URL it returns is
/// [`url_parsed`] of the input. What the error holds is not stated.
#[verifier::external_body]
fn parse_absolute_url(input: &str) -> (r: Result<url::Url, url::ParseError>)
    ensures
        r is Ok <==> url_parses(input@),
        r matches Ok(u) ==> u == url_parsed(input@),
{
    url::Url::parse(input)
}

/// The request that transfers an active SIP call.
#[derive(Debug)]
pub struct RealtimeCallReferRequest {
    pub target_uri: url::Url,
    pub extra: ExtraFields,
}

impl RealtimeCallReferRequest {
    /// A transfer to an already parsed absolute URI.
    pub fn new(target_uri: url::Url) -> (r: Self)
        ensures
            r.target_uri == target_uri,
            r.extra@ == Seq::<(Seq<char>, Json)>::empty(),
    {
        RealtimeCallReferRequest { target_uri, extra: ExtraFields::new() }
    }

    /// A transfer to `target_uri`, which must parse as an absolute URI.
    pub fn parse(target_uri: &str) -> (r: Result<Self, url::ParseError>)
        ensures
            r is Ok <==> url_parses(target_uri@),
            r matches Ok(v) ==> v.target_uri == url_parsed(target_uri@),
            r matches Ok(v) ==> v.extra@ == Seq::<(Seq<char>, Json)>::empty(),
    {
        match parse_absolute_url(target_uri) {
            Ok(url) => Ok(RealtimeCallReferRequest::new(url)),
            Err(e) => Err(e),
        }
    }

    /// Members not modelled here, kept as received.
    pub fn extra_fields(&self) -> (r: &ExtraFields)
        ensures
            r@ == self.extra@,
    {
        &self.extra
    }
}

} // verus!
