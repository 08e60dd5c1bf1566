//! Speech, transcription, translation and image request and response types.
//!
//! Image requests carry their response mode in their type: a request built
//! with `new` expects a single JSON response, one switched with
//! `into_streaming` expects server-sent events and may ask for partial
//! images.  Binary uploads use [`ReplayableMultipartSource`].
use vstd::prelude::*;
use core::marker::PhantomData;
use base64::Engine;
use crate::files::ReplayableMultipartSource;
use crate::json::{ExtraFields, JsonObject, JsonValue, obj_get};
use crate::scalar::{FileId, ModelId};
use crate::text::{chars_eq, concat_str};
use crate::wire::{Nullable, Omittable};

verus! {

broadcast use crate::json::lemma_value_view;

/// Reasons that base64 decoding rejects a text.
#[derive(Debug, Clone, Copy, PartialEq, Eq, Structural)]
pub enum Base64DecodeError {
    /// An invalid byte at an offset.
    InvalidByte(usize, u8),
    /// An invalid number of base64 symbols.
    InvalidLength(usize),
    /// A last symbol with bits that would be discarded, at an offset.
    InvalidLastSymbol(usize, u8),
    /// Missing or misplaced padding.
    InvalidPadding,
}

/// What the standard base64 engine (RFC 4648 alphabet, canonical padding)
/// decodes a text to, or why it rejects the text.
pub uninterp spec fn base64_decoded(text: Seq<char>) -> Result<Seq<u8>, Base64DecodeError>;

/// The standard base64 text (RFC 4648 alphabet, with padding) of the bytes.
pub uninterp spec fn base64_encoded(bytes: Seq<u8>) -> Seq<char>;

/// Whether the standard engine decodes `text` to `bytes`.
pub open spec fn decodes_to(text: Seq<char>, bytes: Seq<u8>) -> bool {
    base64_decoded(text) == Ok::<Seq<u8>, Base64DecodeError>(bytes)
}

/// Decodes standard base64 (`base64::engine::general_purpose::STANDARD.decode`);
/// the outcome is the one [`base64_decoded`] names.
#[verifier::external_body]
pub(crate) fn decode_base64(text: &str) -> (r: Result<Vec<u8>, Base64DecodeError>)
    ensures
        match r {
            Ok(v) => base64_decoded(text@) == Ok::<Seq<u8>, Base64DecodeError>(v@),
            Err(e) => base64_decoded(text@) == Err::<Seq<u8>, Base64DecodeError>(e),
        },
{
    match base64::engine::general_purpose::STANDARD.decode(text) {
        Ok(v) => Ok(v),
        Err(base64::DecodeError::InvalidByte(i, b)) => Err(Base64DecodeError::InvalidByte(i, b)),
        Err(base64::DecodeError::InvalidLength(n)) => Err(Base64DecodeError::InvalidLength(n)),
        Err(base64::DecodeError::InvalidLastSymbol(i, b)) => Err(Base64DecodeError::InvalidLastSymbol(i, b)),
        Err(base64::DecodeError::InvalidPadding) => Err(Base64DecodeError::InvalidPadding),
    }
}

/// Encodes bytes as standard base64
/// (`base64::engine::general_purpose::STANDARD.encode`); the text is the one
/// [`base64_encoded`] names, and the same engine decodes it back to the
/// bytes (it writes the padding and zero trailing bits that it requires).
#[verifier::external_body]
pub(crate) fn encode_base64(bytes: &[u8]) -> (r: String)
    ensures
        r@ == base64_encoded(bytes@),
        decodes_to(r@, bytes@),
{
    base64::engine::general_purpose::STANDARD.encode(bytes)
}

/// Reads the `type` tag of a tagged media object.
pub fn media_discriminator(value: &JsonValue) -> (r: Result<&str, &'static str>)
    ensures
        match value@ {
            crate::json::Json::Object(e) => match obj_get(e, "type"@) {
                Some(crate::json::Json::Str(t)) => (r matches Ok(x) && x@ == t),
                Some(_) => (r matches Err(m) && m@ == "tagged media object field `type` must be a string"@),
                None => (r matches Err(m) && m@ == "tagged media object is missing string field `type`"@),
            },
            _ => (r matches Err(m) && m@ == "tagged media value must be a JSON object"@),
        },
{
    match value {
        JsonValue::Object(o) => match o.get("type") {
            Some(JsonValue::String(t)) => Ok(t.as_str()),
            Some(_) => Err("tagged media object field `type` must be a string"),
            None => Err("tagged media object is missing string field `type`"),
        },
        _ => Err("tagged media value must be a JSON object"),
    }
}

/// An out-of-range bounded media request value.
#[derive(Debug, Clone, Copy, PartialEq, Eq)]
pub struct MediaRangeError {
    pub field: &'static str,
    pub min: u8,
    pub max: u8,
    pub actual: u64,
}

impl MediaRangeError {
    /// The wire field whose value was rejected.
    pub fn field(&self) -> (r: &'static str)
        ensures
            r == self.field,
    {
        self.field
    }

    /// The rejected value.
    pub fn actual(&self) -> (r: u64)
        ensures
            r == self.actual,
    {
        self.actual
    }
}


/// Number of images generated by one request (1 to 10, field `n`).
#[derive(Debug, Clone, Copy)]
pub struct ImageCount(u8);

impl View for ImageCount {
    type V = u8;

    closed spec fn view(&self) -> u8 {
        self.0
    }
}

impl ImageCount {
    #[verifier::type_invariant]
    spec fn inv(&self) -> bool {
        1 <= self.0 <= 10
    }

    /// Checks and wraps a value.
    pub fn new(value: u8) -> (r: Result<Self, MediaRangeError>)
        ensures
            1 <= value <= 10 ==> (r matches Ok(v) && v@ == value),
            !(1 <= value <= 10) ==> (r matches Err(e) && e.field@ == "n"@ && e.min == 1
                && e.max == 10 && e.actual == value as u64),
    {
        if 1 <= value && value <= 10 {
            Ok(ImageCount(value))
        } else {
            Err(MediaRangeError { field: "n", min: 1, max: 10, actual: value as u64 })
        }
    }

    /// Checks a decoded number, which may not even fit in a byte.
    pub fn from_wire(value: u64) -> (r: Result<Self, MediaRangeError>)
        ensures
            1 <= value <= 10 ==> (r matches Ok(v) && v@ == value),
            !(1 <= value <= 10) ==> (r matches Err(e) && e.field@ == "n"@ && e.min == 1
                && e.max == 10 && e.actual == value),
    {
        if value > 255 {
            return Err(MediaRangeError { field: "n", min: 1, max: 10, actual: value });
        }
        ImageCount::new(value as u8)
    }

    /// The validated value.
    pub fn get(self) -> (r: u8)
        ensures
            r == self@,
            1 <= r <= 10,
    {
        proof {
            use_type_invariant(&self);
        }
        self.0
    }
}


/// Number of partial images of a streaming request (0 to 3, field `partial_images`).
#[derive(Debug, Clone, Copy)]
pub struct PartialImageCount(u8);

impl View for PartialImageCount {
    type V = u8;

    closed spec fn view(&self) -> u8 {
        self.0
    }
}

impl PartialImageCount {
    #[verifier::type_invariant]
    spec fn inv(&self) -> bool {
        0 <= self.0 <= 3
    }

    /// Checks and wraps a value.
    pub fn new(value: u8) -> (r: Result<Self, MediaRangeError>)
        ensures
            0 <= value <= 3 ==> (r matches Ok(v) && v@ == value),
            !(0 <= value <= 3) ==> (r matches Err(e) && e.field@ == "partial_images"@ && e.min == 0
                && e.max == 3 && e.actual == value as u64),
    {
        if 0 <= value && value <= 3 {
            Ok(PartialImageCount(value))
        } else {
            Err(MediaRangeError { field: "partial_images", min: 0, max: 3, actual: value as u64 })
        }
    }

    /// Checks a decoded number, which may not even fit in a byte.
    pub fn from_wire(value: u64) -> (r: Result<Self, MediaRangeError>)
        ensures
            0 <= value <= 3 ==> (r matches Ok(v) && v@ == value),
            !(0 <= value <= 3) ==> (r matches Err(e) && e.field@ == "partial_images"@ && e.min == 0
                && e.max == 3 && e.actual == value),
    {
        if value > 255 {
            return Err(MediaRangeError { field: "partial_images", min: 0, max: 3, actual: value });
        }
        PartialImageCount::new(value as u8)
    }

    /// The validated value.
    pub fn get(self) -> (r: u8)
        ensures
            r == self@,
            0 <= r <= 3,
    {
        proof {
            use_type_invariant(&self);
        }
        self.0
    }
}


/// Output compression percentage (0 to 100, field `output_compression`).
#[derive(Debug, Clone, Copy)]
pub struct ImageCompression(u8);

impl View for ImageCompression {
    type V = u8;

    closed spec fn view(&self) -> u8 {
        self.0
    }
}

impl ImageCompression {
    #[verifier::type_invariant]
    spec fn inv(&self) -> bool {
        0 <= self.0 <= 100
    }

    /// Checks and wraps a value.
    pub fn new(value: u8) -> (r: Result<Self, MediaRangeError>)
        ensures
            0 <= value <= 100 ==> (r matches Ok(v) && v@ == value),
            !(0 <= value <= 100) ==> (r matches Err(e) && e.field@ == "output_compression"@ && e.min == 0
                && e.max == 100 && e.actual == value as u64),
    {
        if 0 <= value && value <= 100 {
            Ok(ImageCompression(value))
        } else {
            Err(MediaRangeError { field: "output_compression", min: 0, max: 100, actual: value as u64 })
        }
    }

    /// Checks a decoded number, which may not even fit in a byte.
    pub fn from_wire(value: u64) -> (r: Result<Self, MediaRangeError>)
        ensures
            0 <= value <= 100 ==> (r matches Ok(v) && v@ == value),
            !(0 <= value <= 100) ==> (r matches Err(e) && e.field@ == "output_compression"@ && e.min == 0
                && e.max == 100 && e.actual == value),
    {
        if value > 255 {
            return Err(MediaRangeError { field: "output_compression", min: 0, max: 100, actual: value });
        }
        ImageCompression::new(value as u8)
    }

    /// The validated value.
    pub fn get(self) -> (r: u8)
        ensures
            r == self@,
            0 <= r <= 100,
    {
        proof {
            use_type_invariant(&self);
        }
        self.0
    }
}


/// Response mode of a request that expects one JSON response.
#[derive(Debug, Clone, Copy, PartialEq, Eq, Structural)]
pub struct MediaNonStreaming;

/// Response mode of a request that expects server-sent events.
#[derive(Debug, Clone, Copy, PartialEq, Eq, Structural)]
pub struct MediaStreaming;

/// The response modes of media requests.
pub trait Sealed {
}

impl Sealed for MediaNonStreaming {
}

impl Sealed for MediaStreaming {
}

/// A response mode of media requests.
pub trait MediaStreamMode: Sealed {
    /// Whether the mode expects server-sent events.
    spec fn is_streaming() -> bool;

    /// Whether the mode expects server-sent events.
    fn streaming() -> (r: bool)
        ensures
            r == Self::is_streaming(),
    ;
}

impl MediaStreamMode for MediaNonStreaming {
    open spec fn is_streaming() -> bool {
        false
    }

    fn streaming() -> (r: bool) {
        false
    }
}

impl MediaStreamMode for MediaStreaming {
    open spec fn is_streaming() -> bool {
        true
    }

    fn streaming() -> (r: bool) {
        true
    }
}


/// Encoded audio format of the speech endpoint.
#[derive(Debug, Clone)]
pub enum SpeechResponseFormat {
    /// `mp3`.
    Mp3,
    /// `opus`.
    Opus,
    /// `aac`.
    Aac,
    /// `flac`.
    Flac,
    /// `wav`.
    Wav,
    /// `pcm`.
    Pcm,
    /// A value added by the service after this crate was released.
    Unknown(String),
}

/// Each variant of [`SpeechResponseFormat`] stands for the wire value the API pairs
/// with it, and those values are exactly the ones known.
pub proof fn law_speech_response_format_wire_values(value: Seq<char>)
    ensures
        SpeechResponseFormat::Mp3.wire() == "mp3"@,
        SpeechResponseFormat::Opus.wire() == "opus"@,
        SpeechResponseFormat::Aac.wire() == "aac"@,
        SpeechResponseFormat::Flac.wire() == "flac"@,
        SpeechResponseFormat::Wav.wire() == "wav"@,
        SpeechResponseFormat::Pcm.wire() == "pcm"@,
        SpeechResponseFormat::is_known_wire(value) <==> (value == "mp3"@ || value == "opus"@ || value == "aac"@ || value == "flac"@ || value == "wav"@ || value == "pcm"@),
{
}

impl SpeechResponseFormat {
    /// The exact string used on the wire.
    pub open spec fn wire(&self) -> Seq<char> {
        match self {
            SpeechResponseFormat::Mp3 => "mp3"@,
            SpeechResponseFormat::Opus => "opus"@,
            SpeechResponseFormat::Aac => "aac"@,
            SpeechResponseFormat::Flac => "flac"@,
            SpeechResponseFormat::Wav => "wav"@,
            SpeechResponseFormat::Pcm => "pcm"@,
            SpeechResponseFormat::Unknown(s) => s@,
        }
    }

    /// Whether `value` is one of the wire values this crate knows.
    pub open spec fn is_known_wire(value: Seq<char>) -> bool {
        value == "mp3"@ || value == "opus"@ || value == "aac"@ || value == "flac"@ || value == "wav"@ || value == "pcm"@
    }

    /// Parses a wire value while retaining unknown strings verbatim.
    pub fn from_raw(value: &str) -> (r: Self)
        ensures
            r.wire() == value@,
            (r is Unknown) == !Self::is_known_wire(value@),
    {
        if chars_eq(value, "mp3") {
            SpeechResponseFormat::Mp3
        } else if chars_eq(value, "opus") {
            SpeechResponseFormat::Opus
        } else if chars_eq(value, "aac") {
            SpeechResponseFormat::Aac
        } else if chars_eq(value, "flac") {
            SpeechResponseFormat::Flac
        } else if chars_eq(value, "wav") {
            SpeechResponseFormat::Wav
        } else if chars_eq(value, "pcm") {
            SpeechResponseFormat::Pcm
        } else {
            SpeechResponseFormat::Unknown(value.to_owned())
        }
    }

    /// The exact string used on the wire.
    pub fn as_str(&self) -> (r: &str)
        ensures
            r@ == self.wire(),
    {
        match self {
            SpeechResponseFormat::Mp3 => "mp3",
            SpeechResponseFormat::Opus => "opus",
            SpeechResponseFormat::Aac => "aac",
            SpeechResponseFormat::Flac => "flac",
            SpeechResponseFormat::Wav => "wav",
            SpeechResponseFormat::Pcm => "pcm",
            SpeechResponseFormat::Unknown(s) => s.as_str(),
        }
    }

    /// Whether this crate knows the wire value.
    pub fn is_known(&self) -> (r: bool)
        ensures
            r == !(self is Unknown),
    {
        match self {
            SpeechResponseFormat::Unknown(_) => false,
            _ => true,
        }
    }

    /// The raw value, only when it is unknown to this crate.
    pub fn unknown_value(&self) -> (r: Option<&str>)
        ensures
            match self {
                SpeechResponseFormat::Unknown(s) => r matches Some(x) && x@ == s@,
                _ => r is None,
            },
    {
        match self {
            SpeechResponseFormat::Unknown(s) => Some(s.as_str()),
            _ => None,
        }
    }
}

/// Speech transport mode.
#[derive(Debug, Clone)]
pub enum SpeechStreamFormat {
    /// `sse`.
    Sse,
    /// `audio`.
    Audio,
    /// A value added by the service after this crate was released.
    Unknown(String),
}

/// Each variant of [`SpeechStreamFormat`] stands for the wire value the API pairs
/// with it, and those values are exactly the ones known.
pub proof fn law_speech_stream_format_wire_values(value: Seq<char>)
    ensures
        SpeechStreamFormat::Sse.wire() == "sse"@,
        SpeechStreamFormat::Audio.wire() == "audio"@,
        SpeechStreamFormat::is_known_wire(value) <==> (value == "sse"@ || value == "audio"@),
{
}

impl SpeechStreamFormat {
    /// The exact string used on the wire.
    pub open spec fn wire(&self) -> Seq<char> {
        match self {
            SpeechStreamFormat::Sse => "sse"@,
            SpeechStreamFormat::Audio => "audio"@,
            SpeechStreamFormat::Unknown(s) => s@,
        }
    }

    /// Whether `value` is one of the wire values this crate knows.
    pub open spec fn is_known_wire(value: Seq<char>) -> bool {
        value == "sse"@ || value == "audio"@
    }

    /// Parses a wire value while retaining unknown strings verbatim.
    pub fn from_raw(value: &str) -> (r: Self)
        ensures
            r.wire() == value@,
            (r is Unknown) == !Self::is_known_wire(value@),
    {
        if chars_eq(value, "sse") {
            SpeechStreamFormat::Sse
        } else if chars_eq(value, "audio") {
            SpeechStreamFormat::Audio
        } else {
            SpeechStreamFormat::Unknown(value.to_owned())
        }
    }

    /// The exact string used on the wire.
    pub fn as_str(&self) -> (r: &str)
        ensures
            r@ == self.wire(),
    {
        match self {
            SpeechStreamFormat::Sse => "sse",
            SpeechStreamFormat::Audio => "audio",
            SpeechStreamFormat::Unknown(s) => s.as_str(),
        }
    }

    /// Whether this crate knows the wire value.
    pub fn is_known(&self) -> (r: bool)
        ensures
            r == !(self is Unknown),
    {
        match self {
            SpeechStreamFormat::Unknown(_) => false,
            _ => true,
        }
    }

    /// The raw value, only when it is unknown to this crate.
    pub fn unknown_value(&self) -> (r: Option<&str>)
        ensures
            match self {
                SpeechStreamFormat::Unknown(s) => r matches Some(x) && x@ == s@,
                _ => r is None,
            },
    {
        match self {
            SpeechStreamFormat::Unknown(s) => Some(s.as_str()),
            _ => None,
        }
    }
}

/// Requested image quality.
#[derive(Debug, Clone)]
pub enum ImageQuality {
    /// `standard`.
    Standard,
    /// `hd`.
    Hd,
    /// `low`.
    Low,
    /// `medium`.
    Medium,
    /// `high`.
    High,
    /// `auto`.
    Auto,
    /// A value added by the service after this crate was released.
    Unknown(String),
}

/// Each variant of [`ImageQuality`] stands for the wire value the API pairs
/// with it, and those values are exactly the ones known.
pub proof fn law_image_quality_wire_values(value: Seq<char>)
    ensures
        ImageQuality::Standard.wire() == "standard"@,
        ImageQuality::Hd.wire() == "hd"@,
        ImageQuality::Low.wire() == "low"@,
        ImageQuality::Medium.wire() == "medium"@,
        ImageQuality::High.wire() == "high"@,
        ImageQuality::Auto.wire() == "auto"@,
        ImageQuality::is_known_wire(value) <==> (value == "standard"@ || value == "hd"@ || value == "low"@ || value == "medium"@ || value == "high"@ || value == "auto"@),
{
}

impl ImageQuality {
    /// The exact string used on the wire.
    pub open spec fn wire(&self) -> Seq<char> {
        match self {
            ImageQuality::Standard => "standard"@,
            ImageQuality::Hd => "hd"@,
            ImageQuality::Low => "low"@,
            ImageQuality::Medium => "medium"@,
            ImageQuality::High => "high"@,
            ImageQuality::Auto => "auto"@,
            ImageQuality::Unknown(s) => s@,
        }
    }

    /// Whether `value` is one of the wire values this crate knows.
    pub open spec fn is_known_wire(value: Seq<char>) -> bool {
        value == "standard"@ || value == "hd"@ || value == "low"@ || value == "medium"@ || value == "high"@ || value == "auto"@
    }

    /// Parses a wire value while retaining unknown strings verbatim.
    pub fn from_raw(value: &str) -> (r: Self)
        ensures
            r.wire() == value@,
            (r is Unknown) == !Self::is_known_wire(value@),
    {
        if chars_eq(value, "standard") {
            ImageQuality::Standard
        } else if chars_eq(value, "hd") {
            ImageQuality::Hd
        } else if chars_eq(value, "low") {
            ImageQuality::Low
        } else if chars_eq(value, "medium") {
            ImageQuality::Medium
        } else if chars_eq(value, "high") {
            ImageQuality::High
        } else if chars_eq(value, "auto") {
            ImageQuality::Auto
        } else {
            ImageQuality::Unknown(value.to_owned())
        }
    }

    /// The exact string used on the wire.
    pub fn as_str(&self) -> (r: &str)
        ensures
            r@ == self.wire(),
    {
        match self {
            ImageQuality::Standard => "standard",
            ImageQuality::Hd => "hd",
            ImageQuality::Low => "low",
            ImageQuality::Medium => "medium",
            ImageQuality::High => "high",
            ImageQuality::Auto => "auto",
            ImageQuality::Unknown(s) => s.as_str(),
        }
    }

    /// Whether this crate knows the wire value.
    pub fn is_known(&self) -> (r: bool)
        ensures
            r == !(self is Unknown),
    {
        match self {
            ImageQuality::Unknown(_) => false,
            _ => true,
        }
    }

    /// The raw value, only when it is unknown to this crate.
    pub fn unknown_value(&self) -> (r: Option<&str>)
        ensures
            match self {
                ImageQuality::Unknown(s) => r matches Some(x) && x@ == s@,
                _ => r is None,
            },
    {
        match self {
            ImageQuality::Unknown(s) => Some(s.as_str()),
            _ => None,
        }
    }
}

/// Requested or reported image dimensions.
#[derive(Debug, Clone)]
pub enum ImageSize {
    /// `auto`.
    Auto,
    /// `256x256`.
    Square256,
    /// `512x512`.
    Square512,
    /// `1024x1024`.
    Square1024,
    /// `1024x1536`.
    Portrait1024x1536,
    /// `1536x1024`.
    Landscape1536x1024,
    /// `1024x1792`.
    Portrait1024x1792,
    /// `1792x1024`.
    Landscape1792x1024,
    /// A value added by the service after this crate was released.
    Unknown(String),
}

/// Each variant of [`ImageSize`] stands for the wire value the API pairs
/// with it, and those values are exactly the ones known.
pub proof fn law_image_size_wire_values(value: Seq<char>)
    ensures
        ImageSize::Auto.wire() == "auto"@,
        ImageSize::Square256.wire() == "256x256"@,
        ImageSize::Square512.wire() == "512x512"@,
        ImageSize::Square1024.wire() == "1024x1024"@,
        ImageSize::Portrait1024x1536.wire() == "1024x1536"@,
        ImageSize::Landscape1536x1024.wire() == "1536x1024"@,
        ImageSize::Portrait1024x1792.wire() == "1024x1792"@,
        ImageSize::Landscape1792x1024.wire() == "1792x1024"@,
        ImageSize::is_known_wire(value) <==> (value == "auto"@ || value == "256x256"@ || value == "512x512"@ || value == "1024x1024"@ || value == "1024x1536"@ || value == "1536x1024"@ || value == "1024x1792"@ || value == "1792x1024"@),
{
}

impl ImageSize {
    /// The exact string used on the wire.
    pub open spec fn wire(&self) -> Seq<char> {
        match self {
            ImageSize::Auto => "auto"@,
            ImageSize::Square256 => "256x256"@,
            ImageSize::Square512 => "512x512"@,
            ImageSize::Square1024 => "1024x1024"@,
            ImageSize::Portrait1024x1536 => "1024x1536"@,
            ImageSize::Landscape1536x1024 => "1536x1024"@,
            ImageSize::Portrait1024x1792 => "1024x1792"@,
            ImageSize::Landscape1792x1024 => "1792x1024"@,
            ImageSize::Unknown(s) => s@,
        }
    }

    /// Whether `value` is one of the wire values this crate knows.
    pub open spec fn is_known_wire(value: Seq<char>) -> bool {
        value == "auto"@ || value == "256x256"@ || value == "512x512"@ || value == "1024x1024"@ || value == "1024x1536"@ || value == "1536x1024"@ || value == "1024x1792"@ || value == "1792x1024"@
    }

    /// Parses a wire value while retaining unknown strings verbatim.
    pub fn from_raw(value: &str) -> (r: Self)
        ensures
            r.wire() == value@,
            (r is Unknown) == !Self::is_known_wire(value@),
    {
        if chars_eq(value, "auto") {
            ImageSize::Auto
        } else if chars_eq(value, "256x256") {
            ImageSize::Square256
        } else if chars_eq(value, "512x512") {
            ImageSize::Square512
        } else if chars_eq(value, "1024x1024") {
            ImageSize::Square1024
        } else if chars_eq(value, "1024x1536") {
            ImageSize::Portrait1024x1536
        } else if chars_eq(value, "1536x1024") {
            ImageSize::Landscape1536x1024
        } else if chars_eq(value, "1024x1792") {
            ImageSize::Portrait1024x1792
        } else if chars_eq(value, "1792x1024") {
            ImageSize::Landscape1792x1024
        } else {
            ImageSize::Unknown(value.to_owned())
        }
    }

    /// The exact string used on the wire.
    pub fn as_str(&self) -> (r: &str)
        ensures
            r@ == self.wire(),
    {
        match self {
            ImageSize::Auto => "auto",
            ImageSize::Square256 => "256x256",
            ImageSize::Square512 => "512x512",
            ImageSize::Square1024 => "1024x1024",
            ImageSize::Portrait1024x1536 => "1024x1536",
            ImageSize::Landscape1536x1024 => "1536x1024",
            ImageSize::Portrait1024x1792 => "1024x1792",
            ImageSize::Landscape1792x1024 => "1792x1024",
            ImageSize::Unknown(s) => s.as_str(),
        }
    }

    /// Whether this crate knows the wire value.
    pub fn is_known(&self) -> (r: bool)
        ensures
            r == !(self is Unknown),
    {
        match self {
            ImageSize::Unknown(_) => false,
            _ => true,
        }
    }

    /// The raw value, only when it is unknown to this crate.
    pub fn unknown_value(&self) -> (r: Option<&str>)
        ensures
            match self {
                ImageSize::Unknown(s) => r matches Some(x) && x@ == s@,
                _ => r is None,
            },
    {
        match self {
            ImageSize::Unknown(s) => Some(s.as_str()),
            _ => None,
        }
    }
}

/// Legacy image response representation.
#[derive(Debug, Clone)]
pub enum ImageResponseFormat {
    /// `url`.
    Url,
    /// `b64_json`.
    Base64Json,
    /// A value added by the service after this crate was released.
    Unknown(String),
}

/// Each variant of [`ImageResponseFormat`] stands for the wire value the API pairs
/// with it, and those values are exactly the ones known.
pub proof fn law_image_response_format_wire_values(value: Seq<char>)
    ensures
        ImageResponseFormat::Url.wire() == "url"@,
        ImageResponseFormat::Base64Json.wire() == "b64_json"@,
        ImageResponseFormat::is_known_wire(value) <==> (value == "url"@ || value == "b64_json"@),
{
}

impl ImageResponseFormat {
    /// The exact string used on the wire.
    pub open spec fn wire(&self) -> Seq<char> {
        match self {
            ImageResponseFormat::Url => "url"@,
            ImageResponseFormat::Base64Json => "b64_json"@,
            ImageResponseFormat::Unknown(s) => s@,
        }
    }

    /// Whether `value` is one of the wire values this crate knows.
    pub open spec fn is_known_wire(value: Seq<char>) -> bool {
        value == "url"@ || value == "b64_json"@
    }

    /// Parses a wire value while retaining unknown strings verbatim.
    pub fn from_raw(value: &str) -> (r: Self)
        ensures
            r.wire() == value@,
            (r is Unknown) == !Self::is_known_wire(value@),
    {
        if chars_eq(value, "url") {
            ImageResponseFormat::Url
        } else if chars_eq(value, "b64_json") {
            ImageResponseFormat::Base64Json
        } else {
            ImageResponseFormat::Unknown(value.to_owned())
        }
    }

    /// The exact string used on the wire.
    pub fn as_str(&self) -> (r: &str)
        ensures
            r@ == self.wire(),
    {
        match self {
            ImageResponseFormat::Url => "url",
            ImageResponseFormat::Base64Json => "b64_json",
            ImageResponseFormat::Unknown(s) => s.as_str(),
        }
    }

    /// Whether this crate knows the wire value.
    pub fn is_known(&self) -> (r: bool)
        ensures
            r == !(self is Unknown),
    {
        match self {
            ImageResponseFormat::Unknown(_) => false,
            _ => true,
        }
    }

    /// The raw value, only when it is unknown to this crate.
    pub fn unknown_value(&self) -> (r: Option<&str>)
        ensures
            match self {
                ImageResponseFormat::Unknown(s) => r matches Some(x) && x@ == s@,
                _ => r is None,
            },
    {
        match self {
            ImageResponseFormat::Unknown(s) => Some(s.as_str()),
            _ => None,
        }
    }
}

/// Encoded output image format.
#[derive(Debug, Clone)]
pub enum ImageOutputFormat {
    /// `png`.
    Png,
    /// `jpeg`.
    Jpeg,
    /// `webp`.
    Webp,
    /// A value added by the service after this crate was released.
    Unknown(String),
}

/// Each variant of [`ImageOutputFormat`] stands for the wire value the API pairs
/// with it, and those values are exactly the ones known.
pub proof fn law_image_output_format_wire_values(value: Seq<char>)
    ensures
        ImageOutputFormat::Png.wire() == "png"@,
        ImageOutputFormat::Jpeg.wire() == "jpeg"@,
        ImageOutputFormat::Webp.wire() == "webp"@,
        ImageOutputFormat::is_known_wire(value) <==> (value == "png"@ || value == "jpeg"@ || value == "webp"@),
{
}

impl ImageOutputFormat {
    /// The exact string used on the wire.
    pub open spec fn wire(&self) -> Seq<char> {
        match self {
            ImageOutputFormat::Png => "png"@,
            ImageOutputFormat::Jpeg => "jpeg"@,
            ImageOutputFormat::Webp => "webp"@,
            ImageOutputFormat::Unknown(s) => s@,
        }
    }

    /// Whether `value` is one of the wire values this crate knows.
    pub open spec fn is_known_wire(value: Seq<char>) -> bool {
        value == "png"@ || value == "jpeg"@ || value == "webp"@
    }

    /// Parses a wire value while retaining unknown strings verbatim.
    pub fn from_raw(value: &str) -> (r: Self)
        ensures
            r.wire() == value@,
            (r is Unknown) == !Self::is_known_wire(value@),
    {
        if chars_eq(value, "png") {
            ImageOutputFormat::Png
        } else if chars_eq(value, "jpeg") {
            ImageOutputFormat::Jpeg
        } else if chars_eq(value, "webp") {
            ImageOutputFormat::Webp
        } else {
            ImageOutputFormat::Unknown(value.to_owned())
        }
    }

    /// The exact string used on the wire.
    pub fn as_str(&self) -> (r: &str)
        ensures
            r@ == self.wire(),
    {
        match self {
            ImageOutputFormat::Png => "png",
            ImageOutputFormat::Jpeg => "jpeg",
            ImageOutputFormat::Webp => "webp",
            ImageOutputFormat::Unknown(s) => s.as_str(),
        }
    }

    /// Whether this crate knows the wire value.
    pub fn is_known(&self) -> (r: bool)
        ensures
            r == !(self is Unknown),
    {
        match self {
            ImageOutputFormat::Unknown(_) => false,
            _ => true,
        }
    }

    /// The raw value, only when it is unknown to this crate.
    pub fn unknown_value(&self) -> (r: Option<&str>)
        ensures
            match self {
                ImageOutputFormat::Unknown(s) => r matches Some(x) && x@ == s@,
                _ => r is None,
            },
    {
        match self {
            ImageOutputFormat::Unknown(s) => Some(s.as_str()),
            _ => None,
        }
    }
}

/// Image background behaviour.
#[derive(Debug, Clone)]
pub enum ImageBackground {
    /// `transparent`.
    Transparent,
    /// `opaque`.
    Opaque,
    /// `auto`.
    Auto,
    /// A value added by the service after this crate was released.
    Unknown(String),
}

/// Each variant of [`ImageBackground`] stands for the wire value the API pairs
/// with it, and those values are exactly the ones known.
pub proof fn law_image_background_wire_values(value: Seq<char>)
    ensures
        ImageBackground::Transparent.wire() == "transparent"@,
        ImageBackground::Opaque.wire() == "opaque"@,
        ImageBackground::Auto.wire() == "auto"@,
        ImageBackground::is_known_wire(value) <==> (value == "transparent"@ || value == "opaque"@ || value == "auto"@),
{
}

impl ImageBackground {
    /// The exact string used on the wire.
    pub open spec fn wire(&self) -> Seq<char> {
        match self {
            ImageBackground::Transparent => "transparent"@,
            ImageBackground::Opaque => "opaque"@,
            ImageBackground::Auto => "auto"@,
            ImageBackground::Unknown(s) => s@,
        }
    }

    /// Whether `value` is one of the wire values this crate knows.
    pub open spec fn is_known_wire(value: Seq<char>) -> bool {
        value == "transparent"@ || value == "opaque"@ || value == "auto"@
    }

    /// Parses a wire value while retaining unknown strings verbatim.
    pub fn from_raw(value: &str) -> (r: Self)
        ensures
            r.wire() == value@,
            (r is Unknown) == !Self::is_known_wire(value@),
    {
        if chars_eq(value, "transparent") {
            ImageBackground::Transparent
        } else if chars_eq(value, "opaque") {
            ImageBackground::Opaque
        } else if chars_eq(value, "auto") {
            ImageBackground::Auto
        } else {
            ImageBackground::Unknown(value.to_owned())
        }
    }

    /// The exact string used on the wire.
    pub fn as_str(&self) -> (r: &str)
        ensures
            r@ == self.wire(),
    {
        match self {
            ImageBackground::Transparent => "transparent",
            ImageBackground::Opaque => "opaque",
            ImageBackground::Auto => "auto",
            ImageBackground::Unknown(s) => s.as_str(),
        }
    }

    /// Whether this crate knows the wire value.
    pub fn is_known(&self) -> (r: bool)
        ensures
            r == !(self is Unknown),
    {
        match self {
            ImageBackground::Unknown(_) => false,
            _ => true,
        }
    }

    /// The raw value, only when it is unknown to this crate.
    pub fn unknown_value(&self) -> (r: Option<&str>)
        ensures
            match self {
                ImageBackground::Unknown(s) => r matches Some(x) && x@ == s@,
                _ => r is None,
            },
    {
        match self {
            ImageBackground::Unknown(s) => Some(s.as_str()),
            _ => None,
        }
    }
}

/// Image-generation moderation level.
#[derive(Debug, Clone)]
pub enum ImageModeration {
    /// `low`.
    Low,
    /// `auto`.
    Auto,
    /// A value added by the service after this crate was released.
    Unknown(String),
}

/// Each variant of [`ImageModeration`] stands for the wire value the API pairs
/// with it, and those values are exactly the ones known.
pub proof fn law_image_moderation_wire_values(value: Seq<char>)
    ensures
        ImageModeration::Low.wire() == "low"@,
        ImageModeration::Auto.wire() == "auto"@,
        ImageModeration::is_known_wire(value) <==> (value == "low"@ || value == "auto"@),
{
}

impl ImageModeration {
    /// The exact string used on the wire.
    pub open spec fn wire(&self) -> Seq<char> {
        match self {
            ImageModeration::Low => "low"@,
            ImageModeration::Auto => "auto"@,
            ImageModeration::Unknown(s) => s@,
        }
    }

    /// Whether `value` is one of the wire values this crate knows.
    pub open spec fn is_known_wire(value: Seq<char>) -> bool {
        value == "low"@ || value == "auto"@
    }

    /// Parses a wire value while retaining unknown strings verbatim.
    pub fn from_raw(value: &str) -> (r: Self)
        ensures
            r.wire() == value@,
            (r is Unknown) == !Self::is_known_wire(value@),
    {
        if chars_eq(value, "low") {
            ImageModeration::Low
        } else if chars_eq(value, "auto") {
            ImageModeration::Auto
        } else {
            ImageModeration::Unknown(value.to_owned())
        }
    }

    /// The exact string used on the wire.
    pub fn as_str(&self) -> (r: &str)
        ensures
            r@ == self.wire(),
    {
        match self {
            ImageModeration::Low => "low",
            ImageModeration::Auto => "auto",
            ImageModeration::Unknown(s) => s.as_str(),
        }
    }

    /// Whether this crate knows the wire value.
    pub fn is_known(&self) -> (r: bool)
        ensures
            r == !(self is Unknown),
    {
        match self {
            ImageModeration::Unknown(_) => false,
            _ => true,
        }
    }

    /// The raw value, only when it is unknown to this crate.
    pub fn unknown_value(&self) -> (r: Option<&str>)
        ensures
            match self {
                ImageModeration::Unknown(s) => r matches Some(x) && x@ == s@,
                _ => r is None,
            },
    {
        match self {
            ImageModeration::Unknown(s) => Some(s.as_str()),
            _ => None,
        }
    }
}

/// DALL-E 3 image style.
#[derive(Debug, Clone)]
pub enum ImageStyle {
    /// `vivid`.
    Vivid,
    /// `natural`.
    Natural,
    /// A value added by the service after this crate was released.
    Unknown(String),
}

/// Each variant of [`ImageStyle`] stands for the wire value the API pairs
/// with it, and those values are exactly the ones known.
pub proof fn law_image_style_wire_values(value: Seq<char>)
    ensures
        ImageStyle::Vivid.wire() == "vivid"@,
        ImageStyle::Natural.wire() == "natural"@,
        ImageStyle::is_known_wire(value) <==> (value == "vivid"@ || value == "natural"@),
{
}

impl ImageStyle {
    /// The exact string used on the wire.
    pub open spec fn wire(&self) -> Seq<char> {
        match self {
            ImageStyle::Vivid => "vivid"@,
            ImageStyle::Natural => "natural"@,
            ImageStyle::Unknown(s) => s@,
        }
    }

    /// Whether `value` is one of the wire values this crate knows.
    pub open spec fn is_known_wire(value: Seq<char>) -> bool {
        value == "vivid"@ || value == "natural"@
    }

    /// Parses a wire value while retaining unknown strings verbatim.
    pub fn from_raw(value: &str) -> (r: Self)
        ensures
            r.wire() == value@,
            (r is Unknown) == !Self::is_known_wire(value@),
    {
        if chars_eq(value, "vivid") {
            ImageStyle::Vivid
        } else if chars_eq(value, "natural") {
            ImageStyle::Natural
        } else {
            ImageStyle::Unknown(value.to_owned())
        }
    }

    /// The exact string used on the wire.
    pub fn as_str(&self) -> (r: &str)
        ensures
            r@ == self.wire(),
    {
        match self {
            ImageStyle::Vivid => "vivid",
            ImageStyle::Natural => "natural",
            ImageStyle::Unknown(s) => s.as_str(),
        }
    }

    /// Whether this crate knows the wire value.
    pub fn is_known(&self) -> (r: bool)
        ensures
            r == !(self is Unknown),
    {
        match self {
            ImageStyle::Unknown(_) => false,
            _ => true,
        }
    }

    /// The raw value, only when it is unknown to this crate.
    pub fn unknown_value(&self) -> (r: Option<&str>)
        ensures
            match self {
                ImageStyle::Unknown(s) => r matches Some(x) && x@ == s@,
                _ => r is None,
            },
    {
        match self {
            ImageStyle::Unknown(s) => Some(s.as_str()),
            _ => None,
        }
    }
}

/// Fidelity that image editing keeps of the input.
#[derive(Debug, Clone)]
pub enum ImageInputFidelity {
    /// `high`.
    High,
    /// `low`.
    Low,
    /// A value added by the service after this crate was released.
    Unknown(String),
}

/// Each variant of [`ImageInputFidelity`] stands for the wire value the API pairs
/// with it, and those values are exactly the ones known.
pub proof fn law_image_input_fidelity_wire_values(value: Seq<char>)
    ensures
        ImageInputFidelity::High.wire() == "high"@,
        ImageInputFidelity::Low.wire() == "low"@,
        ImageInputFidelity::is_known_wire(value) <==> (value == "high"@ || value == "low"@),
{
}

impl ImageInputFidelity {
    /// The exact string used on the wire.
    pub open spec fn wire(&self) -> Seq<char> {
        match self {
            ImageInputFidelity::High => "high"@,
            ImageInputFidelity::Low => "low"@,
            ImageInputFidelity::Unknown(s) => s@,
        }
    }

    /// Whether `value` is one of the wire values this crate knows.
    pub open spec fn is_known_wire(value: Seq<char>) -> bool {
        value == "high"@ || value == "low"@
    }

    /// Parses a wire value while retaining unknown strings verbatim.
    pub fn from_raw(value: &str) -> (r: Self)
        ensures
            r.wire() == value@,
            (r is Unknown) == !Self::is_known_wire(value@),
    {
        if chars_eq(value, "high") {
            ImageInputFidelity::High
        } else if chars_eq(value, "low") {
            ImageInputFidelity::Low
        } else {
            ImageInputFidelity::Unknown(value.to_owned())
        }
    }

    /// The exact string used on the wire.
    pub fn as_str(&self) -> (r: &str)
        ensures
            r@ == self.wire(),
    {
        match self {
            ImageInputFidelity::High => "high",
            ImageInputFidelity::Low => "low",
            ImageInputFidelity::Unknown(s) => s.as_str(),
        }
    }

    /// Whether this crate knows the wire value.
    pub fn is_known(&self) -> (r: bool)
        ensures
            r == !(self is Unknown),
    {
        match self {
            ImageInputFidelity::Unknown(_) => false,
            _ => true,
        }
    }

    /// The raw value, only when it is unknown to this crate.
    pub fn unknown_value(&self) -> (r: Option<&str>)
        ensures
            match self {
                ImageInputFidelity::Unknown(s) => r matches Some(x) && x@ == s@,
                _ => r is None,
            },
    {
        match self {
            ImageInputFidelity::Unknown(s) => Some(s.as_str()),
            _ => None,
        }
    }
}

/// A built-in or custom speech voice.
#[derive(Debug, Clone)]
pub enum SpeechVoice {
    /// A built-in voice name, or one added later.
    Named(String),
    /// A custom voice.
    Custom(SpeechCustomVoice),
}

/// A custom speech voice.
#[derive(Debug, Clone)]
pub struct SpeechCustomVoice {
    pub id: String,
}

/// A base64 audio chunk of streaming speech synthesis.
#[derive(Clone, Debug)]
pub struct SpeechAudioDeltaEvent {
    /// Base64-encoded audio chunk.
    pub audio: String,
    pub extra: ExtraFields,
}

impl SpeechAudioDeltaEvent {
    /// Decodes the base64 audio chunk.
    pub fn decode_audio(&self) -> (r: Result<Vec<u8>, Base64DecodeError>)
        ensures
            match r {
                Ok(v) => base64_decoded(self.audio@) == Ok::<Seq<u8>, Base64DecodeError>(v@),
                Err(e) => base64_decoded(self.audio@) == Err::<Seq<u8>, Base64DecodeError>(e),
            },
    {
        decode_base64(self.audio.as_str())
    }

    /// Members not modelled here, kept as received.
    pub fn extra(&self) -> (r: &ExtraFields)
        ensures
            r@ == self.extra@,
    {
        &self.extra
    }
}

/// Token usage of a completed speech stream.
#[derive(Clone, Debug)]
pub struct SpeechUsage {
    pub input_tokens: u64,
    pub output_tokens: u64,
    pub total_tokens: u64,
    pub extra: ExtraFields,
}


impl SpeechUsage {
    /// Members not modelled here, kept as received.
    pub fn extra(&self) -> (r: &ExtraFields)
        ensures
            r@ == self.extra@,
    {
        &self.extra
    }
}


/// The terminal event of a speech stream.
#[derive(Clone, Debug)]
pub struct SpeechAudioDoneEvent {
    pub usage: SpeechUsage,
    pub extra: ExtraFields,
}


impl SpeechAudioDoneEvent {
    /// Members not modelled here, kept as received.
    pub fn extra(&self) -> (r: &ExtraFields)
        ensures
            r@ == self.extra@,
    {
        &self.extra
    }
}


/// One event of a streaming speech response, by its `type`.
#[derive(Clone, Debug)]
pub enum SpeechStreamEvent {
    /// `speech.audio.delta`.
    AudioDelta(SpeechAudioDeltaEvent),
    /// `speech.audio.done`.
    AudioDone(SpeechAudioDoneEvent),
    /// An event added after this crate was released, as received.
    Unknown(JsonObject),
}

impl SpeechStreamEvent {
    /// Whether the event ends a healthy speech stream.
    pub fn is_terminal(&self) -> (r: bool)
        ensures
            r == (self is AudioDone),
    {
        match self {
            SpeechStreamEvent::AudioDone(_) => true,
            _ => false,
        }
    }
}

/// Input token breakdown of a transcription.
#[derive(Clone, Debug)]
pub struct TranscriptionInputTokenDetails {
    pub text_tokens: Omittable<u64>,
    pub audio_tokens: Omittable<u64>,
    pub extra: ExtraFields,
}


impl TranscriptionInputTokenDetails {
    /// Members not modelled here, kept as received.
    pub fn extra(&self) -> (r: &ExtraFields)
        ensures
            r@ == self.extra@,
    {
        &self.extra
    }
}


/// Token-billed transcription usage.
#[derive(Clone, Debug)]
pub struct TranscriptionTokenUsage {
    pub input_tokens: u64,
    pub input_token_details: Omittable<TranscriptionInputTokenDetails>,
    pub output_tokens: u64,
    pub total_tokens: u64,
    pub extra: ExtraFields,
}


impl TranscriptionTokenUsage {
    /// Members not modelled here, kept as received.
    pub fn extra(&self) -> (r: &ExtraFields)
        ensures
            r@ == self.extra@,
    {
        &self.extra
    }
}


/// One language detected in transcription audio.
#[derive(Clone, Debug)]
pub struct TranscriptionLanguage {
    pub code: String,
    pub extra: ExtraFields,
}


impl TranscriptionLanguage {
    /// Members not modelled here, kept as received.
    pub fn extra(&self) -> (r: &ExtraFields)
        ensures
            r@ == self.extra@,
    {
        &self.extra
    }
}


/// Standard JSON translation response.
#[derive(Clone, Debug)]
pub struct Translation {
    /// English translation text.
    pub text: String,
    pub extra: ExtraFields,
}


impl Translation {
    /// Members not modelled here, kept as received.
    pub fn extra(&self) -> (r: &ExtraFields)
        ensures
            r@ == self.extra@,
    {
        &self.extra
    }
}

/// A JSON image-edit input: a URL or data URL, or an uploaded file.
#[derive(Debug, Clone)]
pub enum ImageReference {
    /// A fully qualified URL or a base64 data URL.
    Url(String),
    /// An uploaded file.
    File(FileId),
}

/// How a JSON object reads as an image reference: `Ok((true, url))`,
/// `Ok((false, file_id))`, or the reason it is rejected.
pub open spec fn image_reference_from(e: Seq<(Seq<char>, crate::json::Json)>) -> Result<(bool, Seq<char>), Seq<char>> {
    if e.len() != 1 {
        Err("image reference requires exactly one of `image_url` or `file_id`"@)
    } else {
        match obj_get(e, "image_url"@) {
            Some(crate::json::Json::Str(u)) => Ok((true, u)),
            Some(_) => Err("`image_url` must be a string"@),
            None => match obj_get(e, "file_id"@) {
                Some(crate::json::Json::Str(f)) => Ok((false, f)),
                Some(_) => Err("`file_id` must be a string"@),
                None => Err("image reference requires `image_url` or `file_id`"@),
            },
        }
    }
}

impl ImageReference {
    /// A URL or data-URL reference.
    pub fn url(url: &str) -> (r: Self)
        ensures
            r matches ImageReference::Url(u) && u@ == url@,
    {
        ImageReference::Url(url.to_owned())
    }

    /// An uploaded-file reference.
    pub fn file(file_id: &str) -> (r: Self)
        ensures
            r matches ImageReference::File(f) && f@ == file_id@,
    {
        ImageReference::File(FileId::new(file_id))
    }

    /// A data URL holding the bytes: `data:<media type>;base64,<base64 text>`.
    pub fn from_bytes(media_type: &str, bytes: &[u8]) -> (r: Self)
        ensures
            r matches ImageReference::Url(u) && u@ == "data:"@ + media_type@ + ";base64,"@
                + base64_encoded(bytes@),
    {
        let encoded = encode_base64(bytes);
        let mut url = concat_str("data:", media_type);
        url.append(";base64,");
        url.append(encoded.as_str());
        ImageReference::Url(url)
    }

    /// Reads a reference from a decoded JSON object, which must hold exactly
    /// one of `image_url` and `file_id`, as a string.
    pub fn from_json(object: &JsonObject) -> (r: Result<Self, &'static str>)
        ensures
            match image_reference_from(object@) {
                Ok((true, u)) => (r matches Ok(ImageReference::Url(x)) && x@ == u),
                Ok((false, f)) => (r matches Ok(ImageReference::File(x)) && x@ == f),
                Err(m) => (r matches Err(x) && x@ == m),
            },
    {
        if object.len() != 1 {
            return Err("image reference requires exactly one of `image_url` or `file_id`");
        }
        match object.get("image_url") {
            Some(JsonValue::String(u)) => {
                return Ok(ImageReference::Url(u.clone()));
            },
            Some(_) => {
                return Err("`image_url` must be a string");
            },
            None => {},
        }
        match object.get("file_id") {
            Some(JsonValue::String(f)) => Ok(ImageReference::File(FileId::new(f.as_str()))),
            Some(_) => Err("`file_id` must be a string"),
            None => Err("image reference requires `image_url` or `file_id`"),
        }
    }

    /// The JSON object of the reference: one member, `image_url` or `file_id`.
    pub fn to_json(&self) -> (r: JsonObject)
        ensures
            r@ == match self {
                ImageReference::Url(u) => seq![("image_url"@, crate::json::Json::Str(u@))],
                ImageReference::File(f) => seq![("file_id"@, crate::json::Json::Str(f@))],
            },
    {
        let mut o = JsonObject::new();
        match self {
            ImageReference::Url(u) => o.insert(
                String::from_str("image_url"),
                JsonValue::String(u.clone()),
            ),
            ImageReference::File(f) => o.insert(
                String::from_str("file_id"),
                JsonValue::String(f.as_str().to_owned()),
            ),
        }
        o
    }
}

/// Fields shared by streaming and non-streaming image generation.
#[derive(Clone, Debug)]
pub struct ImageGenerationRequestBody {
    pub prompt: String,
    pub model: Omittable<Nullable<ModelId>>,
    pub n: Omittable<Nullable<ImageCount>>,
    pub quality: Omittable<Nullable<ImageQuality>>,
    pub response_format: Omittable<Nullable<ImageResponseFormat>>,
    pub output_format: Omittable<Nullable<ImageOutputFormat>>,
    pub output_compression: Omittable<Nullable<ImageCompression>>,
    pub size: Omittable<Nullable<ImageSize>>,
    pub moderation: Omittable<Nullable<ImageModeration>>,
    pub background: Omittable<Nullable<ImageBackground>>,
    pub style: Omittable<Nullable<ImageStyle>>,
    pub user: Omittable<String>,
}

impl ImageGenerationRequestBody {
    /// Generation fields with only the prompt given.
    pub fn new(prompt: &str) -> (r: Self)
        ensures
            r.prompt@ == prompt@,
            r.model is Omitted,
            r.n is Omitted,
            r.quality is Omitted,
            r.response_format is Omitted,
            r.output_format is Omitted,
            r.output_compression is Omitted,
            r.size is Omitted,
            r.moderation is Omitted,
            r.background is Omitted,
            r.style is Omitted,
            r.user is Omitted,
    {
        ImageGenerationRequestBody {
            prompt: prompt.to_owned(),
            model: Omittable::Omitted,
            n: Omittable::Omitted,
            quality: Omittable::Omitted,
            response_format: Omittable::Omitted,
            output_format: Omittable::Omitted,
            output_compression: Omittable::Omitted,
            size: Omittable::Omitted,
            moderation: Omittable::Omitted,
            background: Omittable::Omitted,
            style: Omittable::Omitted,
            user: Omittable::Omitted,
        }
    }
}

/// Whether a `stream` field asks for server-sent events: present and `true`.
pub open spec fn asks_streaming(stream: Omittable<Nullable<bool>>) -> bool {
    stream == Omittable::Value(Nullable::Value(true))
}

fn is_stream_true(stream: &Omittable<Nullable<bool>>) -> (r: bool)
    ensures
        r == asks_streaming(*stream),
{
    match stream {
        Omittable::Value(Nullable::Value(b)) => *b,
        _ => false,
    }
}

/// Why decoded `stream` and `partial_images` fields do not fit a response
/// mode, if they do not: `stream: true` must match the mode, and only a
/// streaming request may ask for partial images.
pub open spec fn mode_mismatch(
    streaming: bool,
    stream: Omittable<Nullable<bool>>,
    partial_images: Omittable<Nullable<PartialImageCount>>,
    needs_stream: Seq<char>,
    refuses_stream: Seq<char>,
    refuses_partial: Seq<char>,
) -> Option<Seq<char>> {
    if asks_streaming(stream) != streaming {
        Some(
            if streaming {
                needs_stream
            } else {
                refuses_stream
            },
        )
    } else if !streaming && partial_images is Value {
        Some(refuses_partial)
    } else {
        None
    }
}

/// JSON body for image generation, in response mode `M`.
#[derive(Debug)]
pub struct CreateImageRequest<M: MediaStreamMode> {
    body: ImageGenerationRequestBody,
    stream: Omittable<Nullable<bool>>,
    partial_images: Omittable<Nullable<PartialImageCount>>,
    mode: PhantomData<M>,
}

impl<M: MediaStreamMode> CreateImageRequest<M> {
    pub closed spec fn spec_body(&self) -> ImageGenerationRequestBody {
        self.body
    }

    pub closed spec fn spec_stream(&self) -> Omittable<Nullable<bool>> {
        self.stream
    }

    pub closed spec fn spec_partial_images(&self) -> Omittable<Nullable<PartialImageCount>> {
        self.partial_images
    }

    /// The generation fields.
    pub fn body(&self) -> (r: &ImageGenerationRequestBody)
        ensures
            *r == self.spec_body(),
    {
        &self.body
    }

    /// The `stream` field.
    pub fn stream(&self) -> (r: &Omittable<Nullable<bool>>)
        ensures
            *r == self.spec_stream(),
    {
        &self.stream
    }

    /// The `partial_images` field.
    pub fn partial_images(&self) -> (r: &Omittable<Nullable<PartialImageCount>>)
        ensures
            *r == self.spec_partial_images(),
    {
        &self.partial_images
    }

    /// A request of decoded fields, refused when the fields do not fit
    /// response mode `M`.
    pub fn from_wire(
        body: ImageGenerationRequestBody,
        stream: Omittable<Nullable<bool>>,
        partial_images: Omittable<Nullable<PartialImageCount>>,
    ) -> (r: Result<Self, &'static str>)
        ensures
            match mode_mismatch(
                M::is_streaming(),
                stream,
                partial_images,
                "streaming image generation requires `stream: true`"@,
                "non-streaming image generation cannot carry `stream: true`"@,
                "non-streaming image generation cannot carry `partial_images`"@,
            ) {
                Some(m) => (r matches Err(x) && x@ == m),
                None => (r matches Ok(q) && q.spec_body() == body && q.spec_stream() == stream
                    && q.spec_partial_images() == partial_images),
            },
    {
        let streaming = M::streaming();
        if is_stream_true(&stream) != streaming {
            return Err(
                if streaming {
                    "streaming image generation requires `stream: true`"
                } else {
                    "non-streaming image generation cannot carry `stream: true`"
                },
            );
        }
        if !streaming && !partial_images.is_omitted() {
            return Err("non-streaming image generation cannot carry `partial_images`");
        }
        Ok(CreateImageRequest { body, stream, partial_images, mode: PhantomData })
    }

    /// Selects a model.
    pub fn with_model(self, model: ModelId) -> (r: Self)
        ensures
            r.spec_body() == (ImageGenerationRequestBody {
                model: Omittable::Value(Nullable::Value(model)),
                ..self.spec_body()
            }),
            r.spec_stream() == self.spec_stream(),
            r.spec_partial_images() == self.spec_partial_images(),
    {
        let mut body = self.body;
        body.model = Omittable::Value(Nullable::Value(model));
        CreateImageRequest { body, ..self }
    }

    /// Selects the output quality.
    pub fn with_quality(self, quality: ImageQuality) -> (r: Self)
        ensures
            r.spec_body() == (ImageGenerationRequestBody {
                quality: Omittable::Value(Nullable::Value(quality)),
                ..self.spec_body()
            }),
            r.spec_stream() == self.spec_stream(),
            r.spec_partial_images() == self.spec_partial_images(),
    {
        let mut body = self.body;
        body.quality = Omittable::Value(Nullable::Value(quality));
        CreateImageRequest { body, ..self }
    }

    /// Selects the dimensions.
    pub fn with_size(self, size: ImageSize) -> (r: Self)
        ensures
            r.spec_body() == (ImageGenerationRequestBody {
                size: Omittable::Value(Nullable::Value(size)),
                ..self.spec_body()
            }),
            r.spec_stream() == self.spec_stream(),
            r.spec_partial_images() == self.spec_partial_images(),
    {
        let mut body = self.body;
        body.size = Omittable::Value(Nullable::Value(size));
        CreateImageRequest { body, ..self }
    }

    /// Selects the encoded output format.
    pub fn with_output_format(self, format: ImageOutputFormat) -> (r: Self)
        ensures
            r.spec_body() == (ImageGenerationRequestBody {
                output_format: Omittable::Value(Nullable::Value(format)),
                ..self.spec_body()
            }),
            r.spec_stream() == self.spec_stream(),
            r.spec_partial_images() == self.spec_partial_images(),
    {
        let mut body = self.body;
        body.output_format = Omittable::Value(Nullable::Value(format));
        CreateImageRequest { body, ..self }
    }

    /// Selects the background behaviour.
    pub fn with_background(self, background: ImageBackground) -> (r: Self)
        ensures
            r.spec_body() == (ImageGenerationRequestBody {
                background: Omittable::Value(Nullable::Value(background)),
                ..self.spec_body()
            }),
            r.spec_stream() == self.spec_stream(),
            r.spec_partial_images() == self.spec_partial_images(),
    {
        let mut body = self.body;
        body.background = Omittable::Value(Nullable::Value(background));
        CreateImageRequest { body, ..self }
    }
}

impl CreateImageRequest<MediaNonStreaming> {
    /// A non-streaming generation request.
    pub fn new(prompt: &str) -> (r: Self)
        ensures
            r.spec_body().prompt@ == prompt@,
            r.spec_body().model is Omitted,
            r.spec_body().n is Omitted,
            r.spec_stream() is Omitted,
            r.spec_partial_images() is Omitted,
    {
        CreateImageRequest {
            body: ImageGenerationRequestBody::new(prompt),
            stream: Omittable::Omitted,
            partial_images: Omittable::Omitted,
            mode: PhantomData,
        }
    }

    /// Switches to server-sent events.
    pub fn into_streaming(self) -> (r: CreateImageRequest<MediaStreaming>)
        ensures
            r.spec_body() == self.spec_body(),
            asks_streaming(r.spec_stream()),
            r.spec_partial_images() is Omitted,
    {
        CreateImageRequest {
            body: self.body,
            stream: Omittable::Value(Nullable::Value(true)),
            partial_images: Omittable::Omitted,
            mode: PhantomData,
        }
    }
}

impl CreateImageRequest<MediaStreaming> {
    /// Asks for zero to three partial images.
    pub fn with_partial_images(self, count: PartialImageCount) -> (r: Self)
        ensures
            r.spec_partial_images() == Omittable::Value(Nullable::Value(count)),
            r.spec_body() == self.spec_body(),
            r.spec_stream() == self.spec_stream(),
    {
        CreateImageRequest { partial_images: Omittable::Value(Nullable::Value(count)), ..self }
    }
}

/// Non-streaming image generation request.
pub type ImageGenerationRequest = CreateImageRequest<MediaNonStreaming>;

/// Streaming image generation request.
pub type ImageGenerationStreamRequest = CreateImageRequest<MediaStreaming>;

/// JSON image-edit fields shared by both response modes.
#[derive(Clone, Debug)]
pub struct ImageEditJsonRequestBody {
    /// One to sixteen image references.
    pub images: Vec<ImageReference>,
    pub prompt: String,
    pub model: Omittable<Nullable<ModelId>>,
    pub mask: Omittable<ImageReference>,
    pub n: Omittable<Nullable<ImageCount>>,
    pub quality: Omittable<Nullable<ImageQuality>>,
    pub input_fidelity: Omittable<Nullable<ImageInputFidelity>>,
    pub size: Omittable<Nullable<ImageSize>>,
    pub user: Omittable<String>,
    pub output_format: Omittable<Nullable<ImageOutputFormat>>,
    pub output_compression: Omittable<Nullable<ImageCompression>>,
    pub moderation: Omittable<Nullable<ImageModeration>>,
    pub background: Omittable<Nullable<ImageBackground>>,
}

impl ImageEditJsonRequestBody {
    /// Edit fields with one image and the prompt given.
    pub fn new(image: ImageReference, prompt: &str) -> (r: Self)
        ensures
            r.images@ == seq![image],
            r.prompt@ == prompt@,
            r.model is Omitted,
            r.mask is Omitted,
            r.n is Omitted,
            r.quality is Omitted,
            r.input_fidelity is Omitted,
            r.size is Omitted,
            r.user is Omitted,
            r.output_format is Omitted,
            r.output_compression is Omitted,
            r.moderation is Omitted,
            r.background is Omitted,
    {
        let mut images = Vec::new();
        images.push(image);
        assert(images@ =~= seq![image]);
        ImageEditJsonRequestBody {
            images,
            prompt: prompt.to_owned(),
            model: Omittable::Omitted,
            mask: Omittable::Omitted,
            n: Omittable::Omitted,
            quality: Omittable::Omitted,
            input_fidelity: Omittable::Omitted,
            size: Omittable::Omitted,
            user: Omittable::Omitted,
            output_format: Omittable::Omitted,
            output_compression: Omittable::Omitted,
            moderation: Omittable::Omitted,
            background: Omittable::Omitted,
        }
    }
}

/// The most input images of one edit.
pub const MAX_IMAGE_EDIT_SOURCES: usize = 16;

/// JSON body for image editing with image references, in response mode `M`.
#[derive(Debug)]
pub struct CreateImageEditJsonRequest<M: MediaStreamMode> {
    body: ImageEditJsonRequestBody,
    stream: Omittable<Nullable<bool>>,
    partial_images: Omittable<Nullable<PartialImageCount>>,
    mode: PhantomData<M>,
}

impl<M: MediaStreamMode> CreateImageEditJsonRequest<M> {
    pub closed spec fn spec_body(&self) -> ImageEditJsonRequestBody {
        self.body
    }

    pub closed spec fn spec_stream(&self) -> Omittable<Nullable<bool>> {
        self.stream
    }

    pub closed spec fn spec_partial_images(&self) -> Omittable<Nullable<PartialImageCount>> {
        self.partial_images
    }

    /// The edit fields.
    pub fn body(&self) -> (r: &ImageEditJsonRequestBody)
        ensures
            *r == self.spec_body(),
    {
        &self.body
    }

    /// The `stream` field.
    pub fn stream(&self) -> (r: &Omittable<Nullable<bool>>)
        ensures
            *r == self.spec_stream(),
    {
        &self.stream
    }

    /// The `partial_images` field.
    pub fn partial_images(&self) -> (r: &Omittable<Nullable<PartialImageCount>>)
        ensures
            *r == self.spec_partial_images(),
    {
        &self.partial_images
    }

    /// A request of decoded fields: one to sixteen images, and `stream` and
    /// `partial_images` fitting response mode `M`.
    pub fn from_wire(
        body: ImageEditJsonRequestBody,
        stream: Omittable<Nullable<bool>>,
        partial_images: Omittable<Nullable<PartialImageCount>>,
    ) -> (r: Result<Self, &'static str>)
        ensures
            (body.images@.len() == 0 || body.images@.len() > 16) ==> (r matches Err(x) && x@
                == "JSON image edit requires between one and sixteen images"@),
            !(body.images@.len() == 0 || body.images@.len() > 16) ==> match mode_mismatch(
                M::is_streaming(),
                stream,
                partial_images,
                "streaming JSON image edit requires `stream: true`"@,
                "non-streaming JSON image edit cannot carry `stream: true`"@,
                "non-streaming JSON image edit cannot carry `partial_images`"@,
            ) {
                Some(m) => (r matches Err(x) && x@ == m),
                None => (r matches Ok(q) && q.spec_body() == body && q.spec_stream() == stream
                    && q.spec_partial_images() == partial_images),
            },
    {
        let n = body.images.len();
        if n == 0 || n > MAX_IMAGE_EDIT_SOURCES {
            return Err("JSON image edit requires between one and sixteen images");
        }
        let streaming = M::streaming();
        if is_stream_true(&stream) != streaming {
            return Err(
                if streaming {
                    "streaming JSON image edit requires `stream: true`"
                } else {
                    "non-streaming JSON image edit cannot carry `stream: true`"
                },
            );
        }
        if !streaming && !partial_images.is_omitted() {
            return Err("non-streaming JSON image edit cannot carry `partial_images`");
        }
        Ok(CreateImageEditJsonRequest { body, stream, partial_images, mode: PhantomData })
    }

    /// Appends another input image.
    pub fn with_image(self, image: ImageReference) -> (r: Self)
        ensures
            r.spec_body().images@ == self.spec_body().images@.push(image),
            r.spec_body() == (ImageEditJsonRequestBody { images: r.spec_body().images, ..self.spec_body() }),
            r.spec_stream() == self.spec_stream(),
            r.spec_partial_images() == self.spec_partial_images(),
    {
        let mut body = self.body;
        body.images.push(image);
        CreateImageEditJsonRequest { body, ..self }
    }

    /// Sets an edit mask.
    pub fn with_mask(self, mask: ImageReference) -> (r: Self)
        ensures
            r.spec_body() == (ImageEditJsonRequestBody {
                mask: Omittable::Value(mask),
                ..self.spec_body()
            }),
            r.spec_stream() == self.spec_stream(),
            r.spec_partial_images() == self.spec_partial_images(),
    {
        let mut body = self.body;
        body.mask = Omittable::Value(mask);
        CreateImageEditJsonRequest { body, ..self }
    }

    /// Selects a model.
    pub fn with_model(self, model: ModelId) -> (r: Self)
        ensures
            r.spec_body() == (ImageEditJsonRequestBody {
                model: Omittable::Value(Nullable::Value(model)),
                ..self.spec_body()
            }),
            r.spec_stream() == self.spec_stream(),
            r.spec_partial_images() == self.spec_partial_images(),
    {
        let mut body = self.body;
        body.model = Omittable::Value(Nullable::Value(model));
        CreateImageEditJsonRequest { body, ..self }
    }

    /// Selects the output quality.
    pub fn with_quality(self, quality: ImageQuality) -> (r: Self)
        ensures
            r.spec_body() == (ImageEditJsonRequestBody {
                quality: Omittable::Value(Nullable::Value(quality)),
                ..self.spec_body()
            }),
            r.spec_stream() == self.spec_stream(),
            r.spec_partial_images() == self.spec_partial_images(),
    {
        let mut body = self.body;
        body.quality = Omittable::Value(Nullable::Value(quality));
        CreateImageEditJsonRequest { body, ..self }
    }

    /// Selects the input fidelity.
    pub fn with_input_fidelity(self, fidelity: ImageInputFidelity) -> (r: Self)
        ensures
            r.spec_body() == (ImageEditJsonRequestBody {
                input_fidelity: Omittable::Value(Nullable::Value(fidelity)),
                ..self.spec_body()
            }),
            r.spec_stream() == self.spec_stream(),
            r.spec_partial_images() == self.spec_partial_images(),
    {
        let mut body = self.body;
        body.input_fidelity = Omittable::Value(Nullable::Value(fidelity));
        CreateImageEditJsonRequest { body, ..self }
    }
}

impl CreateImageEditJsonRequest<MediaNonStreaming> {
    /// A non-streaming JSON edit request.
    pub fn new(image: ImageReference, prompt: &str) -> (r: Self)
        ensures
            r.spec_body().images@ == seq![image],
            r.spec_body().prompt@ == prompt@,
            r.spec_stream() is Omitted,
            r.spec_partial_images() is Omitted,
    {
        CreateImageEditJsonRequest {
            body: ImageEditJsonRequestBody::new(image, prompt),
            stream: Omittable::Omitted,
            partial_images: Omittable::Omitted,
            mode: PhantomData,
        }
    }

    /// Switches to server-sent events.
    pub fn into_streaming(self) -> (r: CreateImageEditJsonRequest<MediaStreaming>)
        ensures
            r.spec_body() == self.spec_body(),
            asks_streaming(r.spec_stream()),
            r.spec_partial_images() is Omitted,
    {
        CreateImageEditJsonRequest {
            body: self.body,
            stream: Omittable::Value(Nullable::Value(true)),
            partial_images: Omittable::Omitted,
            mode: PhantomData,
        }
    }
}

impl CreateImageEditJsonRequest<MediaStreaming> {
    /// Asks for zero to three partial images.
    pub fn with_partial_images(self, count: PartialImageCount) -> (r: Self)
        ensures
            r.spec_partial_images() == Omittable::Value(Nullable::Value(count)),
            r.spec_body() == self.spec_body(),
            r.spec_stream() == self.spec_stream(),
    {
        CreateImageEditJsonRequest { partial_images: Omittable::Value(Nullable::Value(count)), ..self }
    }
}

/// Non-streaming JSON image edit request.
pub type ImageEditJsonRequest = CreateImageEditJsonRequest<MediaNonStreaming>;

/// Streaming JSON image edit request.
pub type ImageEditJsonStreamRequest = CreateImageEditJsonRequest<MediaStreaming>;

/// Text fields of a multipart image edit.
#[derive(Clone, Debug)]
pub struct ImageEditMultipartMetadata {
    pub prompt: String,
    pub background: Omittable<Nullable<ImageBackground>>,
    pub model: Omittable<Nullable<ModelId>>,
    pub n: Omittable<Nullable<ImageCount>>,
    pub size: Omittable<Nullable<ImageSize>>,
    pub response_format: Omittable<Nullable<ImageResponseFormat>>,
    pub output_format: Omittable<Nullable<ImageOutputFormat>>,
    pub output_compression: Omittable<Nullable<ImageCompression>>,
    pub user: Omittable<String>,
    pub input_fidelity: Omittable<Nullable<ImageInputFidelity>>,
    pub stream: Omittable<Nullable<bool>>,
    pub partial_images: Omittable<Nullable<PartialImageCount>>,
    pub quality: Omittable<Nullable<ImageQuality>>,
}

impl ImageEditMultipartMetadata {
    /// Text fields with only the prompt given.
    pub fn new(prompt: &str) -> (r: Self)
        ensures
            r.prompt@ == prompt@,
            r.background is Omitted,
            r.model is Omitted,
            r.n is Omitted,
            r.size is Omitted,
            r.response_format is Omitted,
            r.output_format is Omitted,
            r.output_compression is Omitted,
            r.user is Omitted,
            r.input_fidelity is Omitted,
            r.stream is Omitted,
            r.partial_images is Omitted,
            r.quality is Omitted,
    {
        ImageEditMultipartMetadata {
            prompt: prompt.to_owned(),
            background: Omittable::Omitted,
            model: Omittable::Omitted,
            n: Omittable::Omitted,
            size: Omittable::Omitted,
            response_format: Omittable::Omitted,
            output_format: Omittable::Omitted,
            output_compression: Omittable::Omitted,
            user: Omittable::Omitted,
            input_fidelity: Omittable::Omitted,
            stream: Omittable::Omitted,
            partial_images: Omittable::Omitted,
            quality: Omittable::Omitted,
        }
    }

    /// Whether `stream: true` is sent.
    pub fn is_streaming(&self) -> (r: bool)
        ensures
            r == asks_streaming(self.stream),
    {
        is_stream_true(&self.stream)
    }
}

/// An invalid number of multipart image-edit sources.
#[derive(Debug, Clone, Copy, PartialEq, Eq, Structural)]
pub struct ImageEditSourceCountError {
    pub count: usize,
}

impl ImageEditSourceCountError {
    /// The rejected count.
    pub fn count(self) -> (r: usize)
        ensures
            r == self.count,
    {
        self.count
    }
}

/// Multipart image edit request, in response mode `M`.
#[derive(Debug)]
pub struct CreateImageEditMultipartRequest<M: MediaStreamMode> {
    images: Vec<ReplayableMultipartSource>,
    mask: Omittable<ReplayableMultipartSource>,
    /// The text fields.
    pub metadata: ImageEditMultipartMetadata,
    mode: PhantomData<M>,
}

impl<M: MediaStreamMode> CreateImageEditMultipartRequest<M> {
    pub closed spec fn spec_images(&self) -> Seq<ReplayableMultipartSource> {
        self.images@
    }

    pub closed spec fn spec_mask(&self) -> Omittable<ReplayableMultipartSource> {
        self.mask
    }

    pub closed spec fn spec_metadata(&self) -> ImageEditMultipartMetadata {
        self.metadata
    }

    /// The input images, in multipart field order.
    pub fn images(&self) -> (r: &[ReplayableMultipartSource])
        ensures
            r@ == self.spec_images(),
    {
        self.images.as_slice()
    }

    /// The mask, when one is set.
    pub fn mask(&self) -> (r: Option<&ReplayableMultipartSource>)
        ensures
            match self.spec_mask() {
                Omittable::Value(m) => r == Some(&m),
                Omittable::Omitted => r is None,
            },
    {
        match &self.mask {
            Omittable::Value(m) => Some(m),
            Omittable::Omitted => None,
        }
    }

    /// Sets a mask.
    pub fn with_mask(self, mask: ReplayableMultipartSource) -> (r: Self)
        ensures
            r.spec_mask() == Omittable::Value(mask),
            r.spec_images() == self.spec_images(),
            r.spec_metadata() == self.spec_metadata(),
    {
        CreateImageEditMultipartRequest { mask: Omittable::Value(mask), ..self }
    }

    /// Selects the output quality.
    pub fn with_quality(self, quality: ImageQuality) -> (r: Self)
        ensures
            r.spec_metadata() == (ImageEditMultipartMetadata {
                quality: Omittable::Value(Nullable::Value(quality)),
                ..self.spec_metadata()
            }),
            r.spec_images() == self.spec_images(),
            r.spec_mask() == self.spec_mask(),
    {
        let mut metadata = self.metadata;
        metadata.quality = Omittable::Value(Nullable::Value(quality));
        CreateImageEditMultipartRequest { metadata, ..self }
    }

    /// Selects the output format.
    pub fn with_output_format(self, format: ImageOutputFormat) -> (r: Self)
        ensures
            r.spec_metadata() == (ImageEditMultipartMetadata {
                output_format: Omittable::Value(Nullable::Value(format)),
                ..self.spec_metadata()
            }),
            r.spec_images() == self.spec_images(),
            r.spec_mask() == self.spec_mask(),
    {
        let mut metadata = self.metadata;
        metadata.output_format = Omittable::Value(Nullable::Value(format));
        CreateImageEditMultipartRequest { metadata, ..self }
    }
}

impl CreateImageEditMultipartRequest<MediaNonStreaming> {
    /// An edit request with one image.
    pub fn new(image: ReplayableMultipartSource, prompt: &str) -> (r: Self)
        ensures
            r.spec_images() == seq![image],
            r.spec_mask() is Omitted,
            r.spec_metadata().prompt@ == prompt@,
            r.spec_metadata().stream is Omitted,
    {
        let mut images = Vec::new();
        images.push(image);
        assert(images@ =~= seq![image]);
        CreateImageEditMultipartRequest {
            images,
            mask: Omittable::Omitted,
            metadata: ImageEditMultipartMetadata::new(prompt),
            mode: PhantomData,
        }
    }

    /// An edit request with one to sixteen images.
    pub fn from_images(images: Vec<ReplayableMultipartSource>, prompt: &str) -> (r: Result<
        Self,
        ImageEditSourceCountError,
    >)
        ensures
            (images@.len() == 0 || images@.len() > 16) ==> r == Err::<Self, ImageEditSourceCountError>(
                ImageEditSourceCountError { count: images.len() },
            ),
            !(images@.len() == 0 || images@.len() > 16) ==> (r matches Ok(q) && q.spec_images()
                == images@ && q.spec_mask() is Omitted && q.spec_metadata().prompt@ == prompt@
                && q.spec_metadata().stream is Omitted),
    {
        let n = images.len();
        if n == 0 || n > MAX_IMAGE_EDIT_SOURCES {
            return Err(ImageEditSourceCountError { count: n });
        }
        Ok(CreateImageEditMultipartRequest {
            images,
            mask: Omittable::Omitted,
            metadata: ImageEditMultipartMetadata::new(prompt),
            mode: PhantomData,
        })
    }

    /// Switches to server-sent events.
    pub fn into_streaming(self) -> (r: CreateImageEditMultipartRequest<MediaStreaming>)
        ensures
            r.spec_images() == self.spec_images(),
            r.spec_mask() == self.spec_mask(),
            asks_streaming(r.spec_metadata().stream),
            r.spec_metadata() == (ImageEditMultipartMetadata {
                stream: Omittable::Value(Nullable::Value(true)),
                ..self.spec_metadata()
            }),
    {
        let mut metadata = self.metadata;
        metadata.stream = Omittable::Value(Nullable::Value(true));
        CreateImageEditMultipartRequest {
            images: self.images,
            mask: self.mask,
            metadata,
            mode: PhantomData,
        }
    }
}

impl CreateImageEditMultipartRequest<MediaStreaming> {
    /// Asks for zero to three partial images.
    pub fn with_partial_images(self, count: PartialImageCount) -> (r: Self)
        ensures
            r.spec_metadata() == (ImageEditMultipartMetadata {
                partial_images: Omittable::Value(Nullable::Value(count)),
                ..self.spec_metadata()
            }),
            r.spec_images() == self.spec_images(),
            r.spec_mask() == self.spec_mask(),
    {
        let mut metadata = self.metadata;
        metadata.partial_images = Omittable::Value(Nullable::Value(count));
        CreateImageEditMultipartRequest { metadata, ..self }
    }
}

/// Non-streaming multipart image edit request.
pub type ImageEditMultipartRequest = CreateImageEditMultipartRequest<MediaNonStreaming>;

/// Streaming multipart image edit request.
pub type ImageEditMultipartStreamRequest = CreateImageEditMultipartRequest<MediaStreaming>;


/// One generated or edited image.
#[derive(Clone, Debug)]
pub struct GeneratedImage {
    /// Base64-encoded image bytes.
    pub b64_json: Omittable<String>,
    /// Temporary image URL.
    pub url: Omittable<String>,
    pub revised_prompt: Omittable<String>,
    pub extra: ExtraFields,
}

impl GeneratedImage {
    /// Decodes the base64 image, when there is one.
    pub fn decode(&self) -> (r: Result<Option<Vec<u8>>, Base64DecodeError>)
        ensures
            match self.b64_json {
                Omittable::Value(d) => match r {
                    Ok(Some(v)) => base64_decoded(d@) == Ok::<Seq<u8>, Base64DecodeError>(v@),
                    Ok(None) => false,
                    Err(e) => base64_decoded(d@) == Err::<Seq<u8>, Base64DecodeError>(e),
                },
                Omittable::Omitted => r == Ok::<Option<Vec<u8>>, Base64DecodeError>(None),
            },
    {
        match &self.b64_json {
            Omittable::Value(d) => match decode_base64(d.as_str()) {
                Ok(v) => Ok(Some(v)),
                Err(e) => Err(e),
            },
            Omittable::Omitted => Ok(None),
        }
    }
}


impl GeneratedImage {
    /// Members not modelled here, kept as received.
    pub fn extra(&self) -> (r: &ExtraFields)
        ensures
            r@ == self.extra@,
    {
        &self.extra
    }
}


/// Input token breakdown of image generation.
#[derive(Clone, Debug)]
pub struct ImageInputTokenDetails {
    pub text_tokens: u64,
    pub image_tokens: u64,
    pub extra: ExtraFields,
}


impl ImageInputTokenDetails {
    /// Members not modelled here, kept as received.
    pub fn extra(&self) -> (r: &ExtraFields)
        ensures
            r@ == self.extra@,
    {
        &self.extra
    }
}


/// Output token breakdown of image generation.
#[derive(Clone, Debug)]
pub struct ImageOutputTokenDetails {
    pub image_tokens: u64,
    pub text_tokens: u64,
    pub extra: ExtraFields,
}


impl ImageOutputTokenDetails {
    /// Members not modelled here, kept as received.
    pub fn extra(&self) -> (r: &ExtraFields)
        ensures
            r@ == self.extra@,
    {
        &self.extra
    }
}


/// Token usage of image responses and events.
#[derive(Clone, Debug)]
pub struct ImageUsage {
    pub input_tokens: u64,
    pub total_tokens: u64,
    pub output_tokens: u64,
    pub input_tokens_details: ImageInputTokenDetails,
    pub output_tokens_details: Omittable<ImageOutputTokenDetails>,
    pub extra: ExtraFields,
}


impl ImageUsage {
    /// Members not modelled here, kept as received.
    pub fn extra(&self) -> (r: &ExtraFields)
        ensures
            r@ == self.extra@,
    {
        &self.extra
    }
}


/// Non-streaming Images API response.
#[derive(Clone, Debug)]
pub struct ImagesResponse {
    pub created: u64,
    pub data: Omittable<Vec<GeneratedImage>>,
    pub background: Omittable<ImageBackground>,
    pub output_format: Omittable<ImageOutputFormat>,
    pub size: Omittable<ImageSize>,
    pub quality: Omittable<ImageQuality>,
    pub usage: Omittable<ImageUsage>,
    pub extra: ExtraFields,
}


impl ImagesResponse {
    /// Members not modelled here, kept as received.
    pub fn extra(&self) -> (r: &ExtraFields)
        ensures
            r@ == self.extra@,
    {
        &self.extra
    }
}


/// A partial image of generation.
#[derive(Clone, Debug)]
pub struct ImageGenerationPartialEvent {
    /// Base64 image.
    pub b64_json: String,
    pub created_at: u64,
    pub size: ImageSize,
    pub quality: ImageQuality,
    pub background: ImageBackground,
    pub output_format: ImageOutputFormat,
    pub partial_image_index: u32,
    pub extra: ExtraFields,
}


impl ImageGenerationPartialEvent {
    /// Decodes the base64 image.
    pub fn decode(&self) -> (r: Result<Vec<u8>, Base64DecodeError>)
        ensures
            match r {
                Ok(v) => base64_decoded(self.b64_json@) == Ok::<Seq<u8>, Base64DecodeError>(v@),
                Err(e) => base64_decoded(self.b64_json@) == Err::<Seq<u8>, Base64DecodeError>(e),
            },
    {
        decode_base64(self.b64_json.as_str())
    }
}


impl ImageGenerationPartialEvent {
    /// Members not modelled here, kept as received.
    pub fn extra(&self) -> (r: &ExtraFields)
        ensures
            r@ == self.extra@,
    {
        &self.extra
    }
}


/// The final image of generation.
#[derive(Clone, Debug)]
pub struct ImageGenerationCompletedEvent {
    /// Base64 image.
    pub b64_json: String,
    pub created_at: u64,
    pub size: ImageSize,
    pub quality: ImageQuality,
    pub background: ImageBackground,
    pub output_format: ImageOutputFormat,
    pub usage: ImageUsage,
    pub extra: ExtraFields,
}


impl ImageGenerationCompletedEvent {
    /// Decodes the base64 image.
    pub fn decode(&self) -> (r: Result<Vec<u8>, Base64DecodeError>)
        ensures
            match r {
                Ok(v) => base64_decoded(self.b64_json@) == Ok::<Seq<u8>, Base64DecodeError>(v@),
                Err(e) => base64_decoded(self.b64_json@) == Err::<Seq<u8>, Base64DecodeError>(e),
            },
    {
        decode_base64(self.b64_json.as_str())
    }
}


impl ImageGenerationCompletedEvent {
    /// Members not modelled here, kept as received.
    pub fn extra(&self) -> (r: &ExtraFields)
        ensures
            r@ == self.extra@,
    {
        &self.extra
    }
}


/// A partial image of editing.
#[derive(Clone, Debug)]
pub struct ImageEditPartialEvent {
    /// Base64 image.
    pub b64_json: String,
    pub created_at: u64,
    pub size: ImageSize,
    pub quality: ImageQuality,
    pub background: ImageBackground,
    pub output_format: ImageOutputFormat,
    pub partial_image_index: u32,
    pub extra: ExtraFields,
}


impl ImageEditPartialEvent {
    /// Decodes the base64 image.
    pub fn decode(&self) -> (r: Result<Vec<u8>, Base64DecodeError>)
        ensures
            match r {
                Ok(v) => base64_decoded(self.b64_json@) == Ok::<Seq<u8>, Base64DecodeError>(v@),
                Err(e) => base64_decoded(self.b64_json@) == Err::<Seq<u8>, Base64DecodeError>(e),
            },
    {
        decode_base64(self.b64_json.as_str())
    }
}


impl ImageEditPartialEvent {
    /// Members not modelled here, kept as received.
    pub fn extra(&self) -> (r: &ExtraFields)
        ensures
            r@ == self.extra@,
    {
        &self.extra
    }
}


/// The final image of editing.
#[derive(Clone, Debug)]
pub struct ImageEditCompletedEvent {
    /// Base64 image.
    pub b64_json: String,
    pub created_at: u64,
    pub size: ImageSize,
    pub quality: ImageQuality,
    pub background: ImageBackground,
    pub output_format: ImageOutputFormat,
    pub usage: ImageUsage,
    pub extra: ExtraFields,
}


impl ImageEditCompletedEvent {
    /// Decodes the base64 image.
    pub fn decode(&self) -> (r: Result<Vec<u8>, Base64DecodeError>)
        ensures
            match r {
                Ok(v) => base64_decoded(self.b64_json@) == Ok::<Seq<u8>, Base64DecodeError>(v@),
                Err(e) => base64_decoded(self.b64_json@) == Err::<Seq<u8>, Base64DecodeError>(e),
            },
    {
        decode_base64(self.b64_json.as_str())
    }
}


impl ImageEditCompletedEvent {
    /// Members not modelled here, kept as received.
    pub fn extra(&self) -> (r: &ExtraFields)
        ensures
            r@ == self.extra@,
    {
        &self.extra
    }
}


/// One image-generation event, by its `type`.
#[derive(Clone, Debug)]
pub enum ImageGenerationStreamEvent {
    /// `image_generation.partial_image`.
    Partial(Box<ImageGenerationPartialEvent>),
    /// `image_generation.completed`.
    Completed(Box<ImageGenerationCompletedEvent>),
    /// An event added after this crate was released, as received.
    Unknown(JsonObject),
}

impl ImageGenerationStreamEvent {
    /// Whether the event completes image generation.
    pub fn is_terminal(&self) -> (r: bool)
        ensures
            r == (self is Completed),
    {
        match self {
            ImageGenerationStreamEvent::Completed(_) => true,
            _ => false,
        }
    }
}

/// One image-edit event, by its `type`.
#[derive(Clone, Debug)]
pub enum ImageEditStreamEvent {
    /// `image_edit.partial_image`.
    Partial(Box<ImageEditPartialEvent>),
    /// `image_edit.completed`.
    Completed(Box<ImageEditCompletedEvent>),
    /// An event added after this crate was released, as received.
    Unknown(JsonObject),
}

impl ImageEditStreamEvent {
    /// Whether the event completes image editing.
    pub fn is_terminal(&self) -> (r: bool)
        ensures
            r == (self is Completed),
    {
        match self {
            ImageEditStreamEvent::Completed(_) => true,
            _ => false,
        }
    }
}

/// The streaming speech event under its schema name.
pub type CreateSpeechResponseStreamEvent = SpeechStreamEvent;

/// The plain JSON translation under its schema name.
pub type CreateTranslationResponseJson = Translation;

/// An image edit request; edits are sent as multipart bodies.
pub type CreateImageEditRequest<M> = CreateImageEditMultipartRequest<M>;

/// Short name of the image generation stream event.
pub type ImageGenStreamEvent = ImageGenerationStreamEvent;

/// Short name of the partial-image generation event.
pub type ImageGenPartialImageEvent = ImageGenerationPartialEvent;

/// Short name of the completed image generation event.
pub type ImageGenCompletedEvent = ImageGenerationCompletedEvent;

/// Short name of the partial-image edit event.
pub type ImageEditPartialImageEvent = ImageEditPartialEvent;


/// The documented limits of image edits.
pub proof fn law_image_edit_limits()
    ensures
        MAX_IMAGE_EDIT_SOURCES == 16,
{
}

} // verus!
