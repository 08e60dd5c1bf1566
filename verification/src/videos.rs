//! Sora video generation types.  The service is deprecated and scheduled
//! to shut down on 2026-09-24.
use vstd::prelude::*;
use crate::diagnostics::ResponseMisalignment;
use crate::files::ReplayableMultipartSource;
use crate::json::{ExtraFields, JsonObject};
use crate::text::chars_eq;
use crate::wire::{Nullable, Omittable};

verus! {

/// Video generation model names, with future values preserved.
#[derive(Debug, Clone)]
pub enum VideoModel {
    /// `sora-2`.
    Sora2,
    /// `sora-2-pro`.
    Sora2Pro,
    /// `sora-2-2025-10-06`.
    Sora2October2025,
    /// `sora-2-pro-2025-10-06`.
    Sora2ProOctober2025,
    /// `sora-2-2025-12-08`.
    Sora2December2025,
    /// A value added by the service after this crate was released.
    Unknown(String),
}

/// Each variant of [`VideoModel`] stands for the wire value the API pairs
/// with it, and those values are exactly the ones known.
pub proof fn law_video_model_wire_values(value: Seq<char>)
    ensures
        VideoModel::Sora2.wire() == "sora-2"@,
        VideoModel::Sora2Pro.wire() == "sora-2-pro"@,
        VideoModel::Sora2October2025.wire() == "sora-2-2025-10-06"@,
        VideoModel::Sora2ProOctober2025.wire() == "sora-2-pro-2025-10-06"@,
        VideoModel::Sora2December2025.wire() == "sora-2-2025-12-08"@,
        VideoModel::is_known_wire(value) <==> (value == "sora-2"@ || value == "sora-2-pro"@ || value == "sora-2-2025-10-06"@ || value == "sora-2-pro-2025-10-06"@ || value == "sora-2-2025-12-08"@),
{
}

impl VideoModel {
    /// The exact string used on the wire.
    pub open spec fn wire(&self) -> Seq<char> {
        match self {
            VideoModel::Sora2 => "sora-2"@,
            VideoModel::Sora2Pro => "sora-2-pro"@,
            VideoModel::Sora2October2025 => "sora-2-2025-10-06"@,
            VideoModel::Sora2ProOctober2025 => "sora-2-pro-2025-10-06"@,
            VideoModel::Sora2December2025 => "sora-2-2025-12-08"@,
            VideoModel::Unknown(s) => s@,
        }
    }

    /// Whether `value` is one of the wire values this crate knows.
    pub open spec fn is_known_wire(value: Seq<char>) -> bool {
        value == "sora-2"@ || value == "sora-2-pro"@ || value == "sora-2-2025-10-06"@ || value == "sora-2-pro-2025-10-06"@ || value == "sora-2-2025-12-08"@
    }

    /// Parses a wire value while retaining unknown strings verbatim.
    pub fn from_raw(value: &str) -> (r: Self)
        ensures
            r.wire() == value@,
            (r is Unknown) == !Self::is_known_wire(value@),
    {
        if chars_eq(value, "sora-2") {
            VideoModel::Sora2
        } else if chars_eq(value, "sora-2-pro") {
            VideoModel::Sora2Pro
        } else if chars_eq(value, "sora-2-2025-10-06") {
            VideoModel::Sora2October2025
        } else if chars_eq(value, "sora-2-pro-2025-10-06") {
            VideoModel::Sora2ProOctober2025
        } else if chars_eq(value, "sora-2-2025-12-08") {
            VideoModel::Sora2December2025
        } else {
            VideoModel::Unknown(value.to_owned())
        }
    }

    /// The exact string used on the wire.
    pub fn as_str(&self) -> (r: &str)
        ensures
            r@ == self.wire(),
    {
        match self {
            VideoModel::Sora2 => "sora-2",
            VideoModel::Sora2Pro => "sora-2-pro",
            VideoModel::Sora2October2025 => "sora-2-2025-10-06",
            VideoModel::Sora2ProOctober2025 => "sora-2-pro-2025-10-06",
            VideoModel::Sora2December2025 => "sora-2-2025-12-08",
            VideoModel::Unknown(s) => s.as_str(),
        }
    }

    /// Whether this crate knows the wire value.
    pub fn is_known(&self) -> (r: bool)
        ensures
            r == !(self is Unknown),
    {
        match self {
            VideoModel::Unknown(_) => false,
            _ => true,
        }
    }

    /// The raw value, only when it is unknown to this crate.
    pub fn unknown_value(&self) -> (r: Option<&str>)
        ensures
            match self {
                VideoModel::Unknown(s) => r matches Some(x) && x@ == s@,
                _ => r is None,
            },
    {
        match self {
            VideoModel::Unknown(s) => Some(s.as_str()),
            _ => None,
        }
    }
}
/// Video job states, with future values preserved.
#[derive(Debug, Clone)]
pub enum VideoStatus {
    /// `queued`.
    Queued,
    /// `in_progress`.
    InProgress,
    /// `completed`.
    Completed,
    /// `failed`.
    Failed,
    /// A value added by the service after this crate was released.
    Unknown(String),
}

/// Each variant of [`VideoStatus`] stands for the wire value the API pairs
/// with it, and those values are exactly the ones known.
pub proof fn law_video_status_wire_values(value: Seq<char>)
    ensures
        VideoStatus::Queued.wire() == "queued"@,
        VideoStatus::InProgress.wire() == "in_progress"@,
        VideoStatus::Completed.wire() == "completed"@,
        VideoStatus::Failed.wire() == "failed"@,
        VideoStatus::is_known_wire(value) <==> (value == "queued"@ || value == "in_progress"@ || value == "completed"@ || value == "failed"@),
{
}

impl VideoStatus {
    /// The exact string used on the wire.
    pub open spec fn wire(&self) -> Seq<char> {
        match self {
            VideoStatus::Queued => "queued"@,
            VideoStatus::InProgress => "in_progress"@,
            VideoStatus::Completed => "completed"@,
            VideoStatus::Failed => "failed"@,
            VideoStatus::Unknown(s) => s@,
        }
    }

    /// Whether `value` is one of the wire values this crate knows.
    pub open spec fn is_known_wire(value: Seq<char>) -> bool {
        value == "queued"@ || value == "in_progress"@ || value == "completed"@ || value == "failed"@
    }

    /// Parses a wire value while retaining unknown strings verbatim.
    pub fn from_raw(value: &str) -> (r: Self)
        ensures
            r.wire() == value@,
            (r is Unknown) == !Self::is_known_wire(value@),
    {
        if chars_eq(value, "queued") {
            VideoStatus::Queued
        } else if chars_eq(value, "in_progress") {
            VideoStatus::InProgress
        } else if chars_eq(value, "completed") {
            VideoStatus::Completed
        } else if chars_eq(value, "failed") {
            VideoStatus::Failed
        } else {
            VideoStatus::Unknown(value.to_owned())
        }
    }

    /// The exact string used on the wire.
    pub fn as_str(&self) -> (r: &str)
        ensures
            r@ == self.wire(),
    {
        match self {
            VideoStatus::Queued => "queued",
            VideoStatus::InProgress => "in_progress",
            VideoStatus::Completed => "completed",
            VideoStatus::Failed => "failed",
            VideoStatus::Unknown(s) => s.as_str(),
        }
    }

    /// Whether this crate knows the wire value.
    pub fn is_known(&self) -> (r: bool)
        ensures
            r == !(self is Unknown),
    {
        match self {
            VideoStatus::Unknown(_) => false,
            _ => true,
        }
    }

    /// The raw value, only when it is unknown to this crate.
    pub fn unknown_value(&self) -> (r: Option<&str>)
        ensures
            match self {
                VideoStatus::Unknown(s) => r matches Some(x) && x@ == s@,
                _ => r is None,
            },
    {
        match self {
            VideoStatus::Unknown(s) => Some(s.as_str()),
            _ => None,
        }
    }
}
/// Video dimensions, with future values preserved.
#[derive(Debug, Clone)]
pub enum VideoSize {
    /// `720x1280`.
    Portrait,
    /// `1280x720`.
    Landscape,
    /// `1024x1792`.
    PortraitLarge,
    /// `1792x1024`.
    LandscapeLarge,
    /// A value added by the service after this crate was released.
    Unknown(String),
}

/// Each variant of [`VideoSize`] stands for the wire value the API pairs
/// with it, and those values are exactly the ones known.
pub proof fn law_video_size_wire_values(value: Seq<char>)
    ensures
        VideoSize::Portrait.wire() == "720x1280"@,
        VideoSize::Landscape.wire() == "1280x720"@,
        VideoSize::PortraitLarge.wire() == "1024x1792"@,
        VideoSize::LandscapeLarge.wire() == "1792x1024"@,
        VideoSize::is_known_wire(value) <==> (value == "720x1280"@ || value == "1280x720"@ || value == "1024x1792"@ || value == "1792x1024"@),
{
}

impl VideoSize {
    /// The exact string used on the wire.
    pub open spec fn wire(&self) -> Seq<char> {
        match self {
            VideoSize::Portrait => "720x1280"@,
            VideoSize::Landscape => "1280x720"@,
            VideoSize::PortraitLarge => "1024x1792"@,
            VideoSize::LandscapeLarge => "1792x1024"@,
            VideoSize::Unknown(s) => s@,
        }
    }

    /// Whether `value` is one of the wire values this crate knows.
    pub open spec fn is_known_wire(value: Seq<char>) -> bool {
        value == "720x1280"@ || value == "1280x720"@ || value == "1024x1792"@ || value == "1792x1024"@
    }

    /// Parses a wire value while retaining unknown strings verbatim.
    pub fn from_raw(value: &str) -> (r: Self)
        ensures
            r.wire() == value@,
            (r is Unknown) == !Self::is_known_wire(value@),
    {
        if chars_eq(value, "720x1280") {
            VideoSize::Portrait
        } else if chars_eq(value, "1280x720") {
            VideoSize::Landscape
        } else if chars_eq(value, "1024x1792") {
            VideoSize::PortraitLarge
        } else if chars_eq(value, "1792x1024") {
            VideoSize::LandscapeLarge
        } else {
            VideoSize::Unknown(value.to_owned())
        }
    }

    /// The exact string used on the wire.
    pub fn as_str(&self) -> (r: &str)
        ensures
            r@ == self.wire(),
    {
        match self {
            VideoSize::Portrait => "720x1280",
            VideoSize::Landscape => "1280x720",
            VideoSize::PortraitLarge => "1024x1792",
            VideoSize::LandscapeLarge => "1792x1024",
            VideoSize::Unknown(s) => s.as_str(),
        }
    }

    /// Whether this crate knows the wire value.
    pub fn is_known(&self) -> (r: bool)
        ensures
            r == !(self is Unknown),
    {
        match self {
            VideoSize::Unknown(_) => false,
            _ => true,
        }
    }

    /// The raw value, only when it is unknown to this crate.
    pub fn unknown_value(&self) -> (r: Option<&str>)
        ensures
            match self {
                VideoSize::Unknown(s) => r matches Some(x) && x@ == s@,
                _ => r is None,
            },
    {
        match self {
            VideoSize::Unknown(s) => Some(s.as_str()),
            _ => None,
        }
    }
}
/// Video durations, with future values preserved.
#[derive(Debug, Clone)]
pub enum VideoSeconds {
    /// `4`.
    Four,
    /// `8`.
    Eight,
    /// `12`.
    Twelve,
    /// A value added by the service after this crate was released.
    Unknown(String),
}

/// Each variant of [`VideoSeconds`] stands for the wire value the API pairs
/// with it, and those values are exactly the ones known.
pub proof fn law_video_seconds_wire_values(value: Seq<char>)
    ensures
        VideoSeconds::Four.wire() == "4"@,
        VideoSeconds::Eight.wire() == "8"@,
        VideoSeconds::Twelve.wire() == "12"@,
        VideoSeconds::is_known_wire(value) <==> (value == "4"@ || value == "8"@ || value == "12"@),
{
}

impl VideoSeconds {
    /// The exact string used on the wire.
    pub open spec fn wire(&self) -> Seq<char> {
        match self {
            VideoSeconds::Four => "4"@,
            VideoSeconds::Eight => "8"@,
            VideoSeconds::Twelve => "12"@,
            VideoSeconds::Unknown(s) => s@,
        }
    }

    /// Whether `value` is one of the wire values this crate knows.
    pub open spec fn is_known_wire(value: Seq<char>) -> bool {
        value == "4"@ || value == "8"@ || value == "12"@
    }

    /// Parses a wire value while retaining unknown strings verbatim.
    pub fn from_raw(value: &str) -> (r: Self)
        ensures
            r.wire() == value@,
            (r is Unknown) == !Self::is_known_wire(value@),
    {
        if chars_eq(value, "4") {
            VideoSeconds::Four
        } else if chars_eq(value, "8") {
            VideoSeconds::Eight
        } else if chars_eq(value, "12") {
            VideoSeconds::Twelve
        } else {
            VideoSeconds::Unknown(value.to_owned())
        }
    }

    /// The exact string used on the wire.
    pub fn as_str(&self) -> (r: &str)
        ensures
            r@ == self.wire(),
    {
        match self {
            VideoSeconds::Four => "4",
            VideoSeconds::Eight => "8",
            VideoSeconds::Twelve => "12",
            VideoSeconds::Unknown(s) => s.as_str(),
        }
    }

    /// Whether this crate knows the wire value.
    pub fn is_known(&self) -> (r: bool)
        ensures
            r == !(self is Unknown),
    {
        match self {
            VideoSeconds::Unknown(_) => false,
            _ => true,
        }
    }

    /// The raw value, only when it is unknown to this crate.
    pub fn unknown_value(&self) -> (r: Option<&str>)
        ensures
            match self {
                VideoSeconds::Unknown(s) => r matches Some(x) && x@ == s@,
                _ => r is None,
            },
    {
        match self {
            VideoSeconds::Unknown(s) => Some(s.as_str()),
            _ => None,
        }
    }
}
/// Downloadable video content variants, with future values preserved.
#[derive(Debug, Clone)]
pub enum VideoContentVariant {
    /// `video`.
    Video,
    /// `thumbnail`.
    Thumbnail,
    /// `spritesheet`.
    Spritesheet,
    /// A value added by the service after this crate was released.
    Unknown(String),
}

/// Each variant of [`VideoContentVariant`] stands for the wire value the API pairs
/// with it, and those values are exactly the ones known.
pub proof fn law_video_content_variant_wire_values(value: Seq<char>)
    ensures
        VideoContentVariant::Video.wire() == "video"@,
        VideoContentVariant::Thumbnail.wire() == "thumbnail"@,
        VideoContentVariant::Spritesheet.wire() == "spritesheet"@,
        VideoContentVariant::is_known_wire(value) <==> (value == "video"@ || value == "thumbnail"@ || value == "spritesheet"@),
{
}

impl VideoContentVariant {
    /// The exact string used on the wire.
    pub open spec fn wire(&self) -> Seq<char> {
        match self {
            VideoContentVariant::Video => "video"@,
            VideoContentVariant::Thumbnail => "thumbnail"@,
            VideoContentVariant::Spritesheet => "spritesheet"@,
            VideoContentVariant::Unknown(s) => s@,
        }
    }

    /// Whether `value` is one of the wire values this crate knows.
    pub open spec fn is_known_wire(value: Seq<char>) -> bool {
        value == "video"@ || value == "thumbnail"@ || value == "spritesheet"@
    }

    /// Parses a wire value while retaining unknown strings verbatim.
    pub fn from_raw(value: &str) -> (r: Self)
        ensures
            r.wire() == value@,
            (r is Unknown) == !Self::is_known_wire(value@),
    {
        if chars_eq(value, "video") {
            VideoContentVariant::Video
        } else if chars_eq(value, "thumbnail") {
            VideoContentVariant::Thumbnail
        } else if chars_eq(value, "spritesheet") {
            VideoContentVariant::Spritesheet
        } else {
            VideoContentVariant::Unknown(value.to_owned())
        }
    }

    /// The exact string used on the wire.
    pub fn as_str(&self) -> (r: &str)
        ensures
            r@ == self.wire(),
    {
        match self {
            VideoContentVariant::Video => "video",
            VideoContentVariant::Thumbnail => "thumbnail",
            VideoContentVariant::Spritesheet => "spritesheet",
            VideoContentVariant::Unknown(s) => s.as_str(),
        }
    }

    /// Whether this crate knows the wire value.
    pub fn is_known(&self) -> (r: bool)
        ensures
            r == !(self is Unknown),
    {
        match self {
            VideoContentVariant::Unknown(_) => false,
            _ => true,
        }
    }

    /// The raw value, only when it is unknown to this crate.
    pub fn unknown_value(&self) -> (r: Option<&str>)
        ensures
            match self {
                VideoContentVariant::Unknown(s) => r matches Some(x) && x@ == s@,
                _ => r is None,
            },
    {
        match self {
            VideoContentVariant::Unknown(s) => Some(s.as_str()),
            _ => None,
        }
    }
}
/// Video list sort orders, with future values preserved.
#[derive(Debug, Clone)]
pub enum VideoOrder {
    /// `asc`.
    Asc,
    /// `desc`.
    Desc,
    /// A value added by the service after this crate was released.
    Unknown(String),
}

/// Each variant of [`VideoOrder`] stands for the wire value the API pairs
/// with it, and those values are exactly the ones known.
pub proof fn law_video_order_wire_values(value: Seq<char>)
    ensures
        VideoOrder::Asc.wire() == "asc"@,
        VideoOrder::Desc.wire() == "desc"@,
        VideoOrder::is_known_wire(value) <==> (value == "asc"@ || value == "desc"@),
{
}

impl VideoOrder {
    /// The exact string used on the wire.
    pub open spec fn wire(&self) -> Seq<char> {
        match self {
            VideoOrder::Asc => "asc"@,
            VideoOrder::Desc => "desc"@,
            VideoOrder::Unknown(s) => s@,
        }
    }

    /// Whether `value` is one of the wire values this crate knows.
    pub open spec fn is_known_wire(value: Seq<char>) -> bool {
        value == "asc"@ || value == "desc"@
    }

    /// Parses a wire value while retaining unknown strings verbatim.
    pub fn from_raw(value: &str) -> (r: Self)
        ensures
            r.wire() == value@,
            (r is Unknown) == !Self::is_known_wire(value@),
    {
        if chars_eq(value, "asc") {
            VideoOrder::Asc
        } else if chars_eq(value, "desc") {
            VideoOrder::Desc
        } else {
            VideoOrder::Unknown(value.to_owned())
        }
    }

    /// The exact string used on the wire.
    pub fn as_str(&self) -> (r: &str)
        ensures
            r@ == self.wire(),
    {
        match self {
            VideoOrder::Asc => "asc",
            VideoOrder::Desc => "desc",
            VideoOrder::Unknown(s) => s.as_str(),
        }
    }

    /// Whether this crate knows the wire value.
    pub fn is_known(&self) -> (r: bool)
        ensures
            r == !(self is Unknown),
    {
        match self {
            VideoOrder::Unknown(_) => false,
            _ => true,
        }
    }

    /// The raw value, only when it is unknown to this crate.
    pub fn unknown_value(&self) -> (r: Option<&str>)
        ensures
            match self {
                VideoOrder::Unknown(s) => r matches Some(x) && x@ == s@,
                _ => r is None,
            },
    {
        match self {
            VideoOrder::Unknown(s) => Some(s.as_str()),
            _ => None,
        }
    }
}
/// Video object discriminator, with future values preserved.
#[derive(Debug, Clone)]
pub enum VideoObject {
    /// `video`.
    Video,
    /// A value added by the service after this crate was released.
    Unknown(String),
}

/// Each variant of [`VideoObject`] stands for the wire value the API pairs
/// with it, and those values are exactly the ones known.
pub proof fn law_video_object_wire_values(value: Seq<char>)
    ensures
        VideoObject::Video.wire() == "video"@,
        VideoObject::is_known_wire(value) <==> (value == "video"@),
{
}

impl VideoObject {
    /// The exact string used on the wire.
    pub open spec fn wire(&self) -> Seq<char> {
        match self {
            VideoObject::Video => "video"@,
            VideoObject::Unknown(s) => s@,
        }
    }

    /// Whether `value` is one of the wire values this crate knows.
    pub open spec fn is_known_wire(value: Seq<char>) -> bool {
        value == "video"@
    }

    /// Parses a wire value while retaining unknown strings verbatim.
    pub fn from_raw(value: &str) -> (r: Self)
        ensures
            r.wire() == value@,
            (r is Unknown) == !Self::is_known_wire(value@),
    {
        if chars_eq(value, "video") {
            VideoObject::Video
        } else {
            VideoObject::Unknown(value.to_owned())
        }
    }

    /// The exact string used on the wire.
    pub fn as_str(&self) -> (r: &str)
        ensures
            r@ == self.wire(),
    {
        match self {
            VideoObject::Video => "video",
            VideoObject::Unknown(s) => s.as_str(),
        }
    }

    /// Whether this crate knows the wire value.
    pub fn is_known(&self) -> (r: bool)
        ensures
            r == !(self is Unknown),
    {
        match self {
            VideoObject::Unknown(_) => false,
            _ => true,
        }
    }

    /// The raw value, only when it is unknown to this crate.
    pub fn unknown_value(&self) -> (r: Option<&str>)
        ensures
            match self {
                VideoObject::Unknown(s) => r matches Some(x) && x@ == s@,
                _ => r is None,
            },
    {
        match self {
            VideoObject::Unknown(s) => Some(s.as_str()),
            _ => None,
        }
    }
}
/// Video deletion discriminator, with future values preserved.
#[derive(Debug, Clone)]
pub enum DeletedVideoObject {
    /// `video.deleted`.
    Deleted,
    /// A value added by the service after this crate was released.
    Unknown(String),
}

/// Each variant of [`DeletedVideoObject`] stands for the wire value the API pairs
/// with it, and those values are exactly the ones known.
pub proof fn law_deleted_video_object_wire_values(value: Seq<char>)
    ensures
        DeletedVideoObject::Deleted.wire() == "video.deleted"@,
        DeletedVideoObject::is_known_wire(value) <==> (value == "video.deleted"@),
{
}

impl DeletedVideoObject {
    /// The exact string used on the wire.
    pub open spec fn wire(&self) -> Seq<char> {
        match self {
            DeletedVideoObject::Deleted => "video.deleted"@,
            DeletedVideoObject::Unknown(s) => s@,
        }
    }

    /// Whether `value` is one of the wire values this crate knows.
    pub open spec fn is_known_wire(value: Seq<char>) -> bool {
        value == "video.deleted"@
    }

    /// Parses a wire value while retaining unknown strings verbatim.
    pub fn from_raw(value: &str) -> (r: Self)
        ensures
            r.wire() == value@,
            (r is Unknown) == !Self::is_known_wire(value@),
    {
        if chars_eq(value, "video.deleted") {
            DeletedVideoObject::Deleted
        } else {
            DeletedVideoObject::Unknown(value.to_owned())
        }
    }

    /// The exact string used on the wire.
    pub fn as_str(&self) -> (r: &str)
        ensures
            r@ == self.wire(),
    {
        match self {
            DeletedVideoObject::Deleted => "video.deleted",
            DeletedVideoObject::Unknown(s) => s.as_str(),
        }
    }

    /// Whether this crate knows the wire value.
    pub fn is_known(&self) -> (r: bool)
        ensures
            r == !(self is Unknown),
    {
        match self {
            DeletedVideoObject::Unknown(_) => false,
            _ => true,
        }
    }

    /// The raw value, only when it is unknown to this crate.
    pub fn unknown_value(&self) -> (r: Option<&str>)
        ensures
            match self {
                DeletedVideoObject::Unknown(s) => r matches Some(x) && x@ == s@,
                _ => r is None,
            },
    {
        match self {
            DeletedVideoObject::Unknown(s) => Some(s.as_str()),
            _ => None,
        }
    }
}
/// Video list discriminator, with future values preserved.
#[derive(Debug, Clone)]
pub enum VideoListObject {
    /// `list`.
    List,
    /// A value added by the service after this crate was released.
    Unknown(String),
}

/// Each variant of [`VideoListObject`] stands for the wire value the API pairs
/// with it, and those values are exactly the ones known.
pub proof fn law_video_list_object_wire_values(value: Seq<char>)
    ensures
        VideoListObject::List.wire() == "list"@,
        VideoListObject::is_known_wire(value) <==> (value == "list"@),
{
}

impl VideoListObject {
    /// The exact string used on the wire.
    pub open spec fn wire(&self) -> Seq<char> {
        match self {
            VideoListObject::List => "list"@,
            VideoListObject::Unknown(s) => s@,
        }
    }

    /// Whether `value` is one of the wire values this crate knows.
    pub open spec fn is_known_wire(value: Seq<char>) -> bool {
        value == "list"@
    }

    /// Parses a wire value while retaining unknown strings verbatim.
    pub fn from_raw(value: &str) -> (r: Self)
        ensures
            r.wire() == value@,
            (r is Unknown) == !Self::is_known_wire(value@),
    {
        if chars_eq(value, "list") {
            VideoListObject::List
        } else {
            VideoListObject::Unknown(value.to_owned())
        }
    }

    /// The exact string used on the wire.
    pub fn as_str(&self) -> (r: &str)
        ensures
            r@ == self.wire(),
    {
        match self {
            VideoListObject::List => "list",
            VideoListObject::Unknown(s) => s.as_str(),
        }
    }

    /// Whether this crate knows the wire value.
    pub fn is_known(&self) -> (r: bool)
        ensures
            r == !(self is Unknown),
    {
        match self {
            VideoListObject::Unknown(_) => false,
            _ => true,
        }
    }

    /// The raw value, only when it is unknown to this crate.
    pub fn unknown_value(&self) -> (r: Option<&str>)
        ensures
            match self {
                VideoListObject::Unknown(s) => r matches Some(x) && x@ == s@,
                _ => r is None,
            },
    {
        match self {
            VideoListObject::Unknown(s) => Some(s.as_str()),
            _ => None,
        }
    }
}
/// A video generation job.
#[derive(Clone, Debug)]
pub struct Video {
    pub id: String,
    pub object: VideoObject,
    pub model: VideoModel,
    pub status: VideoStatus,
    /// Generation progress, as a percentage.
    pub progress: i64,
    pub created_at: i64,
    pub completed_at: Nullable<i64>,
    pub expires_at: Nullable<i64>,
    pub prompt: Nullable<String>,
    pub size: VideoSize,
    /// Duration in seconds, as text.
    pub seconds: String,
    pub remixed_from_video_id: Nullable<String>,
    pub error: Nullable<VideoCreateError>,
    pub extra: ExtraFields,
}

impl Video {
    /// Members not modelled here, kept as received.
    pub fn extra_fields(&self) -> (r: &ExtraFields)
        ensures
            r@ == self.extra@,
    {
        &self.extra
    }
}

/// An error returned by video generation.
#[derive(Clone, Debug)]
pub struct VideoCreateError {
    pub code: String,
    pub message: String,
    pub misalignment: Omittable<ResponseMisalignment>,
    pub extra: ExtraFields,
}

impl VideoCreateError {
    /// Members not modelled here, kept as received.
    pub fn extra_fields(&self) -> (r: &ExtraFields)
        ensures
            r@ == self.extra@,
    {
        &self.extra
    }
}

/// A character created from an uploaded video.
#[derive(Clone, Debug)]
pub struct VideoCharacter {
    pub id: Nullable<String>,
    pub name: Nullable<String>,
    pub created_at: i64,
    pub extra: ExtraFields,
}

impl VideoCharacter {
    /// Members not modelled here, kept as received.
    pub fn extra_fields(&self) -> (r: &ExtraFields)
        ensures
            r@ == self.extra@,
    {
        &self.extra
    }
}

/// Confirmation of video deletion.
#[derive(Clone, Debug)]
pub struct DeletedVideo {
    pub id: String,
    pub object: DeletedVideoObject,
    pub deleted: bool,
    pub extra: ExtraFields,
}

impl DeletedVideo {
    /// Members not modelled here, kept as received.
    pub fn extra_fields(&self) -> (r: &ExtraFields)
        ensures
            r@ == self.extra@,
    {
        &self.extra
    }
}

/// A cursor page of video jobs.
#[derive(Clone, Debug)]
pub struct VideoList {
    pub object: VideoListObject,
    pub data: Vec<Video>,
    pub first_id: Nullable<String>,
    pub last_id: Nullable<String>,
    pub has_more: bool,
    pub extra: ExtraFields,
}

impl VideoList {
    /// Members not modelled here, kept as received.
    pub fn extra_fields(&self) -> (r: &ExtraFields)
        ensures
            r@ == self.extra@,
    {
        &self.extra
    }
}

/// An image reference; exactly one of `file_id` and `image_url` is used.
#[derive(Clone, Debug)]
pub struct VideoImageReference {
    pub file_id: Omittable<String>,
    pub image_url: Omittable<String>,
    pub extra: ExtraFields,
}

impl VideoImageReference {
    /// Members not modelled here, kept as received.
    pub fn extra_fields(&self) -> (r: &ExtraFields)
        ensures
            r@ == self.extra@,
    {
        &self.extra
    }
}

impl VideoImageReference {
    /// A reference to an uploaded image file.
    pub fn file_id(id: &str) -> (r: Self)
        ensures
            r.file_id matches Omittable::Value(x) && x@ == id@,
            r.image_url is Omitted,
            r.extra@.len() == 0,
    {
        VideoImageReference {
            file_id: Omittable::Value(id.to_owned()),
            image_url: Omittable::Omitted,
            extra: JsonObject::new(),
        }
    }

    /// A reference to an image URL.
    pub fn image_url(url: &str) -> (r: Self)
        ensures
            r.image_url matches Omittable::Value(x) && x@ == url@,
            r.file_id is Omitted,
            r.extra@.len() == 0,
    {
        VideoImageReference {
            file_id: Omittable::Omitted,
            image_url: Omittable::Value(url.to_owned()),
            extra: JsonObject::new(),
        }
    }
}

/// A video given by upload or by the id of an existing video.
#[derive(Clone, Debug)]
pub enum VideoSource {
    /// Upload video content.
    Upload(ReplayableMultipartSource),
    /// An existing video.
    Reference { id: String },
}

impl VideoSource {
    /// A reference to an existing video.
    pub fn id(id: &str) -> (r: Self)
        ensures
            r matches VideoSource::Reference { id: x } && x@ == id@,
    {
        VideoSource::Reference { id: id.to_owned() }
    }
}

/// Optional image guidance for a new video.
#[derive(Clone, Debug)]
pub enum VideoInputReference {
    /// Upload a reference image.
    Upload(ReplayableMultipartSource),
    /// An uploaded image file or an image URL.
    Reference(VideoImageReference),
}

/// New video generation parameters; omitted values use service defaults.
#[derive(Clone, Debug)]
pub struct CreateVideoRequest {
    pub prompt: String,
    pub model: Omittable<VideoModel>,
    pub seconds: Omittable<VideoSeconds>,
    pub size: Omittable<VideoSize>,
    pub input_reference: Omittable<VideoInputReference>,
}

impl CreateVideoRequest {
    /// A generation request with every optional setting left out.
    pub fn new(prompt: &str) -> (r: Self)
        ensures
            r.prompt@ == prompt@,
            r.model is Omitted,
            r.seconds is Omitted,
            r.size is Omitted,
            r.input_reference is Omitted,
    {
        CreateVideoRequest {
            prompt: prompt.to_owned(),
            model: Omittable::Omitted,
            seconds: Omittable::Omitted,
            size: Omittable::Omitted,
            input_reference: Omittable::Omitted,
        }
    }
}

/// Edit an uploaded video or an existing completed video.
#[derive(Clone, Debug)]
pub struct EditVideoRequest {
    pub video: VideoSource,
    pub prompt: String,
}

impl EditVideoRequest {
    /// An edit request for the video and instructions.
    pub fn new(video: VideoSource, prompt: &str) -> (r: Self)
        ensures
            r.video == video,
            r.prompt@ == prompt@,
    {
        EditVideoRequest { video, prompt: prompt.to_owned() }
    }
}

/// Extend an uploaded video or an existing completed video.
#[derive(Clone, Debug)]
pub struct ExtendVideoRequest {
    pub video: VideoSource,
    pub prompt: String,
    pub seconds: VideoSeconds,
}

impl ExtendVideoRequest {
    /// A request to extend a video by the given duration.
    pub fn new(video: VideoSource, prompt: &str, seconds: VideoSeconds) -> (r: Self)
        ensures
            r.video == video,
            r.prompt@ == prompt@,
            r.seconds == seconds,
    {
        ExtendVideoRequest { video, prompt: prompt.to_owned(), seconds }
    }
}

/// Create a character from a video upload.
#[derive(Clone, Debug)]
pub struct CreateVideoCharacterRequest {
    pub video: ReplayableMultipartSource,
    pub name: String,
}

impl CreateVideoCharacterRequest {
    /// A character extraction request from an uploaded video.
    pub fn new(video: ReplayableMultipartSource, name: &str) -> (r: Self)
        ensures
            r.video == video,
            r.name@ == name@,
    {
        CreateVideoCharacterRequest { video, name: name.to_owned() }
    }
}

/// New instructions for a video remix.
#[derive(Debug, Clone)]
pub struct RemixVideoRequest {
    pub prompt: String,
}

impl RemixVideoRequest {
    /// A remix request with the instructions.
    pub fn new(prompt: &str) -> (r: Self)
        ensures
            r.prompt@ == prompt@,
    {
        RemixVideoRequest { prompt: prompt.to_owned() }
    }
}

/// Query parameters for listing video jobs.
#[derive(Debug, Clone)]
pub struct ListVideosParams {
    pub after: Omittable<String>,
    pub limit: Omittable<u32>,
    pub order: Omittable<VideoOrder>,
}

impl Default for ListVideosParams {
    fn default() -> (r: Self)
        ensures
            r.after is Omitted,
            r.limit is Omitted,
            r.order is Omitted,
    {
        ListVideosParams { after: Omittable::Omitted, limit: Omittable::Omitted, order: Omittable::Omitted }
    }
}

} // verus!
