//! Skills and immutable Skill Versions: listing, uploads and responses.
//!
//! Skill and version creation upload one zip or up to 500 directory files,
//! each directory file under a validated relative path.  Skill content is a
//! raw HTTP body represented by [`SkillContent`].
use vstd::prelude::*;
use crate::files::{FileContent, ReplayableMultipartSource};
use crate::json::ExtraFields;
use crate::secret::{SealedText, sealed_text, seal_text, expose_text};
use crate::text::{
    chars_eq, index_of, lemma_index_of, find_char, contains_char, is_control, has_control,
};
use crate::wire::{Nullable, Omittable};

verus! {


/// Opaque Skill identifier.
#[derive(Debug, Clone)]
pub struct SkillId(pub String);

impl View for SkillId {
    type V = Seq<char>;

    open spec fn view(&self) -> Seq<char> {
        self.0@
    }
}

impl SkillId {
    /// Creates an ID without imposing assumptions on its format.
    pub fn new(value: &str) -> (r: Self)
        ensures
            r@ == value@,
    {
        SkillId(value.to_owned())
    }

    /// Borrows the opaque wire value.
    pub fn as_str(&self) -> (r: &str)
        ensures
            r@ == self@,
    {
        self.0.as_str()
    }

    /// Consumes the ID and returns its wire value.
    pub fn into_string(self) -> (r: String)
        ensures
            r@ == self@,
    {
        self.0
    }
}

/// Opaque immutable Skill Version resource identifier.
#[derive(Debug, Clone)]
pub struct SkillVersionId(pub String);

impl View for SkillVersionId {
    type V = Seq<char>;

    open spec fn view(&self) -> Seq<char> {
        self.0@
    }
}

impl SkillVersionId {
    /// Creates an ID without imposing assumptions on its format.
    pub fn new(value: &str) -> (r: Self)
        ensures
            r@ == value@,
    {
        SkillVersionId(value.to_owned())
    }

    /// Borrows the opaque wire value.
    pub fn as_str(&self) -> (r: &str)
        ensures
            r@ == self@,
    {
        self.0.as_str()
    }

    /// Consumes the ID and returns its wire value.
    pub fn into_string(self) -> (r: String)
        ensures
            r@ == self@,
    {
        self.0
    }
}

/// Version number or path segment, kept as an opaque string.
#[derive(Debug, Clone)]
pub struct SkillVersionNumber(pub String);

impl View for SkillVersionNumber {
    type V = Seq<char>;

    open spec fn view(&self) -> Seq<char> {
        self.0@
    }
}

impl SkillVersionNumber {
    /// Creates an ID without imposing assumptions on its format.
    pub fn new(value: &str) -> (r: Self)
        ensures
            r@ == value@,
    {
        SkillVersionNumber(value.to_owned())
    }

    /// Borrows the opaque wire value.
    pub fn as_str(&self) -> (r: &str)
        ensures
            r@ == self@,
    {
        self.0.as_str()
    }

    /// Consumes the ID and returns its wire value.
    pub fn into_string(self) -> (r: String)
        ensures
            r@ == self@,
    {
        self.0
    }
}

/// Pagination order for Skills resources.
#[derive(Debug, Clone)]
pub enum SkillListOrder {
    /// `asc`.
    Ascending,
    /// `desc`.
    Descending,
    /// A value added by the service after this crate was released.
    Unknown(String),
}

/// Each variant of [`SkillListOrder`] stands for the wire value the API pairs
/// with it, and those values are exactly the ones known.
pub proof fn law_skill_list_order_wire_values(value: Seq<char>)
    ensures
        SkillListOrder::Ascending.wire() == "asc"@,
        SkillListOrder::Descending.wire() == "desc"@,
        SkillListOrder::is_known_wire(value) <==> (value == "asc"@ || value == "desc"@),
{
}

impl SkillListOrder {
    /// The exact string used on the wire.
    pub open spec fn wire(&self) -> Seq<char> {
        match self {
            SkillListOrder::Ascending => "asc"@,
            SkillListOrder::Descending => "desc"@,
            SkillListOrder::Unknown(s) => s@,
        }
    }

    /// Whether `value` is one of the wire values this crate knows.
    pub open spec fn is_known_wire(value: Seq<char>) -> bool {
        value == "asc"@ || value == "desc"@
    }

    /// Parses a wire value while retaining unknown strings verbatim.
    pub fn from_raw(value: &str) -> (r: Self)
        ensures
            r.wire() == value@,
            (r is Unknown) == !Self::is_known_wire(value@),
    {
        if chars_eq(value, "asc") {
            SkillListOrder::Ascending
        } else if chars_eq(value, "desc") {
            SkillListOrder::Descending
        } else {
            SkillListOrder::Unknown(value.to_owned())
        }
    }

    /// The exact string used on the wire.
    pub fn as_str(&self) -> (r: &str)
        ensures
            r@ == self.wire(),
    {
        match self {
            SkillListOrder::Ascending => "asc",
            SkillListOrder::Descending => "desc",
            SkillListOrder::Unknown(s) => s.as_str(),
        }
    }

    /// Whether this crate knows the wire value.
    pub fn is_known(&self) -> (r: bool)
        ensures
            r == !(self is Unknown),
    {
        match self {
            SkillListOrder::Unknown(_) => false,
            _ => true,
        }
    }

    /// The raw value, only when it is unknown to this crate.
    pub fn unknown_value(&self) -> (r: Option<&str>)
        ensures
            match self {
                SkillListOrder::Unknown(s) => r matches Some(x) && x@ == s@,
                _ => r is None,
            },
    {
        match self {
            SkillListOrder::Unknown(s) => Some(s.as_str()),
            _ => None,
        }
    }
}

/// Skill or list object discriminator.
#[derive(Debug, Clone)]
pub enum SkillObject {
    /// `skill`.
    Skill,
    /// `list`.
    List,
    /// A value added by the service after this crate was released.
    Unknown(String),
}

/// Each variant of [`SkillObject`] stands for the wire value the API pairs
/// with it, and those values are exactly the ones known.
pub proof fn law_skill_object_wire_values(value: Seq<char>)
    ensures
        SkillObject::Skill.wire() == "skill"@,
        SkillObject::List.wire() == "list"@,
        SkillObject::is_known_wire(value) <==> (value == "skill"@ || value == "list"@),
{
}

impl SkillObject {
    /// The exact string used on the wire.
    pub open spec fn wire(&self) -> Seq<char> {
        match self {
            SkillObject::Skill => "skill"@,
            SkillObject::List => "list"@,
            SkillObject::Unknown(s) => s@,
        }
    }

    /// Whether `value` is one of the wire values this crate knows.
    pub open spec fn is_known_wire(value: Seq<char>) -> bool {
        value == "skill"@ || value == "list"@
    }

    /// Parses a wire value while retaining unknown strings verbatim.
    pub fn from_raw(value: &str) -> (r: Self)
        ensures
            r.wire() == value@,
            (r is Unknown) == !Self::is_known_wire(value@),
    {
        if chars_eq(value, "skill") {
            SkillObject::Skill
        } else if chars_eq(value, "list") {
            SkillObject::List
        } else {
            SkillObject::Unknown(value.to_owned())
        }
    }

    /// The exact string used on the wire.
    pub fn as_str(&self) -> (r: &str)
        ensures
            r@ == self.wire(),
    {
        match self {
            SkillObject::Skill => "skill",
            SkillObject::List => "list",
            SkillObject::Unknown(s) => s.as_str(),
        }
    }

    /// Whether this crate knows the wire value.
    pub fn is_known(&self) -> (r: bool)
        ensures
            r == !(self is Unknown),
    {
        match self {
            SkillObject::Unknown(_) => false,
            _ => true,
        }
    }

    /// The raw value, only when it is unknown to this crate.
    pub fn unknown_value(&self) -> (r: Option<&str>)
        ensures
            match self {
                SkillObject::Unknown(s) => r matches Some(x) && x@ == s@,
                _ => r is None,
            },
    {
        match self {
            SkillObject::Unknown(s) => Some(s.as_str()),
            _ => None,
        }
    }
}

/// Skill Version object discriminator.
#[derive(Debug, Clone)]
pub enum SkillVersionObject {
    /// `skill.version`.
    Version,
    /// A value added by the service after this crate was released.
    Unknown(String),
}

/// Each variant of [`SkillVersionObject`] stands for the wire value the API pairs
/// with it, and those values are exactly the ones known.
pub proof fn law_skill_version_object_wire_values(value: Seq<char>)
    ensures
        SkillVersionObject::Version.wire() == "skill.version"@,
        SkillVersionObject::is_known_wire(value) <==> (value == "skill.version"@),
{
}

impl SkillVersionObject {
    /// The exact string used on the wire.
    pub open spec fn wire(&self) -> Seq<char> {
        match self {
            SkillVersionObject::Version => "skill.version"@,
            SkillVersionObject::Unknown(s) => s@,
        }
    }

    /// Whether `value` is one of the wire values this crate knows.
    pub open spec fn is_known_wire(value: Seq<char>) -> bool {
        value == "skill.version"@
    }

    /// Parses a wire value while retaining unknown strings verbatim.
    pub fn from_raw(value: &str) -> (r: Self)
        ensures
            r.wire() == value@,
            (r is Unknown) == !Self::is_known_wire(value@),
    {
        if chars_eq(value, "skill.version") {
            SkillVersionObject::Version
        } else {
            SkillVersionObject::Unknown(value.to_owned())
        }
    }

    /// The exact string used on the wire.
    pub fn as_str(&self) -> (r: &str)
        ensures
            r@ == self.wire(),
    {
        match self {
            SkillVersionObject::Version => "skill.version",
            SkillVersionObject::Unknown(s) => s.as_str(),
        }
    }

    /// Whether this crate knows the wire value.
    pub fn is_known(&self) -> (r: bool)
        ensures
            r == !(self is Unknown),
    {
        match self {
            SkillVersionObject::Unknown(_) => false,
            _ => true,
        }
    }

    /// The raw value, only when it is unknown to this crate.
    pub fn unknown_value(&self) -> (r: Option<&str>)
        ensures
            match self {
                SkillVersionObject::Unknown(s) => r matches Some(x) && x@ == s@,
                _ => r is None,
            },
    {
        match self {
            SkillVersionObject::Unknown(s) => Some(s.as_str()),
            _ => None,
        }
    }
}

/// Deleted Skill object discriminator.
#[derive(Debug, Clone)]
pub enum DeletedSkillObject {
    /// `skill.deleted`.
    Deleted,
    /// A value added by the service after this crate was released.
    Unknown(String),
}

/// Each variant of [`DeletedSkillObject`] stands for the wire value the API pairs
/// with it, and those values are exactly the ones known.
pub proof fn law_deleted_skill_object_wire_values(value: Seq<char>)
    ensures
        DeletedSkillObject::Deleted.wire() == "skill.deleted"@,
        DeletedSkillObject::is_known_wire(value) <==> (value == "skill.deleted"@),
{
}

impl DeletedSkillObject {
    /// The exact string used on the wire.
    pub open spec fn wire(&self) -> Seq<char> {
        match self {
            DeletedSkillObject::Deleted => "skill.deleted"@,
            DeletedSkillObject::Unknown(s) => s@,
        }
    }

    /// Whether `value` is one of the wire values this crate knows.
    pub open spec fn is_known_wire(value: Seq<char>) -> bool {
        value == "skill.deleted"@
    }

    /// Parses a wire value while retaining unknown strings verbatim.
    pub fn from_raw(value: &str) -> (r: Self)
        ensures
            r.wire() == value@,
            (r is Unknown) == !Self::is_known_wire(value@),
    {
        if chars_eq(value, "skill.deleted") {
            DeletedSkillObject::Deleted
        } else {
            DeletedSkillObject::Unknown(value.to_owned())
        }
    }

    /// The exact string used on the wire.
    pub fn as_str(&self) -> (r: &str)
        ensures
            r@ == self.wire(),
    {
        match self {
            DeletedSkillObject::Deleted => "skill.deleted",
            DeletedSkillObject::Unknown(s) => s.as_str(),
        }
    }

    /// Whether this crate knows the wire value.
    pub fn is_known(&self) -> (r: bool)
        ensures
            r == !(self is Unknown),
    {
        match self {
            DeletedSkillObject::Unknown(_) => false,
            _ => true,
        }
    }

    /// The raw value, only when it is unknown to this crate.
    pub fn unknown_value(&self) -> (r: Option<&str>)
        ensures
            match self {
                DeletedSkillObject::Unknown(s) => r matches Some(x) && x@ == s@,
                _ => r is None,
            },
    {
        match self {
            DeletedSkillObject::Unknown(s) => Some(s.as_str()),
            _ => None,
        }
    }
}

/// Deleted Skill Version object discriminator.
#[derive(Debug, Clone)]
pub enum DeletedSkillVersionObject {
    /// `skill.version.deleted`.
    Deleted,
    /// A value added by the service after this crate was released.
    Unknown(String),
}

/// Each variant of [`DeletedSkillVersionObject`] stands for the wire value the API pairs
/// with it, and those values are exactly the ones known.
pub proof fn law_deleted_skill_version_object_wire_values(value: Seq<char>)
    ensures
        DeletedSkillVersionObject::Deleted.wire() == "skill.version.deleted"@,
        DeletedSkillVersionObject::is_known_wire(value) <==> (value == "skill.version.deleted"@),
{
}

impl DeletedSkillVersionObject {
    /// The exact string used on the wire.
    pub open spec fn wire(&self) -> Seq<char> {
        match self {
            DeletedSkillVersionObject::Deleted => "skill.version.deleted"@,
            DeletedSkillVersionObject::Unknown(s) => s@,
        }
    }

    /// Whether `value` is one of the wire values this crate knows.
    pub open spec fn is_known_wire(value: Seq<char>) -> bool {
        value == "skill.version.deleted"@
    }

    /// Parses a wire value while retaining unknown strings verbatim.
    pub fn from_raw(value: &str) -> (r: Self)
        ensures
            r.wire() == value@,
            (r is Unknown) == !Self::is_known_wire(value@),
    {
        if chars_eq(value, "skill.version.deleted") {
            DeletedSkillVersionObject::Deleted
        } else {
            DeletedSkillVersionObject::Unknown(value.to_owned())
        }
    }

    /// The exact string used on the wire.
    pub fn as_str(&self) -> (r: &str)
        ensures
            r@ == self.wire(),
    {
        match self {
            DeletedSkillVersionObject::Deleted => "skill.version.deleted",
            DeletedSkillVersionObject::Unknown(s) => s.as_str(),
        }
    }

    /// Whether this crate knows the wire value.
    pub fn is_known(&self) -> (r: bool)
        ensures
            r == !(self is Unknown),
    {
        match self {
            DeletedSkillVersionObject::Unknown(_) => false,
            _ => true,
        }
    }

    /// The raw value, only when it is unknown to this crate.
    pub fn unknown_value(&self) -> (r: Option<&str>)
        ensures
            match self {
                DeletedSkillVersionObject::Unknown(s) => r matches Some(x) && x@ == s@,
                _ => r is None,
            },
    {
        match self {
            DeletedSkillVersionObject::Unknown(s) => Some(s.as_str()),
            _ => None,
        }
    }
}

/// The largest Skill list limit the schema allows.
pub const MAX_SKILL_LIST_LIMIT: u8 = 100;

/// Skill list limit constrained by the schema to `0..=100`.
#[derive(Debug, Clone, Copy, PartialEq, Eq, Structural)]
pub struct SkillListLimit(u8);

impl View for SkillListLimit {
    type V = u8;

    closed spec fn view(&self) -> u8 {
        self.0
    }
}

impl SkillListLimit {
    /// A limit value is valid when it is at most 100.
    pub open spec fn inv(&self) -> bool {
        self@ <= MAX_SKILL_LIST_LIMIT
    }

    /// Validates a list limit.
    pub fn new(value: u8) -> (r: Result<Self, SkillListLimitError>)
        ensures
            value <= 100 ==> (r matches Ok(l) && l@ == value && l.inv()),
            value > 100 ==> (r matches Err(e) && e.actual == value),
    {
        if value <= MAX_SKILL_LIST_LIMIT {
            Ok(SkillListLimit(value))
        } else {
            Err(SkillListLimitError { actual: value })
        }
    }

    /// The validated numeric value.
    pub fn get(self) -> (r: u8)
        ensures
            r == self@,
    {
        self.0
    }
}

/// Invalid Skill list limit.
#[derive(Debug, Clone, Copy, PartialEq, Eq, Structural)]
pub struct SkillListLimitError {
    pub actual: u8,
}

impl SkillListLimitError {
    /// The rejected value.
    pub fn actual(self) -> (r: u8)
        ensures
            r == self.actual,
    {
        self.actual
    }
}

/// Query parameters shared by Skill and Skill Version listings.
#[derive(Debug, Clone)]
pub struct SkillListParams {
    /// Requested page size.
    pub limit: Omittable<SkillListLimit>,
    /// Sort order.
    pub order: Omittable<SkillListOrder>,
    /// Cursor from the previous page.
    pub after: Omittable<String>,
}

impl Default for SkillListParams {
    fn default() -> (r: Self)
        ensures
            r.limit is Omitted,
            r.order is Omitted,
            r.after is Omitted,
    {
        SkillListParams { limit: Omittable::Omitted, order: Omittable::Omitted, after: Omittable::Omitted }
    }
}

/// Stored Skill resource.
#[derive(Clone, Debug)]
pub struct SkillResource {
    /// Skill identifier.
    pub id: SkillId,
    /// Object discriminator.
    pub object: SkillObject,
    /// Skill name parsed from its bundle.
    pub name: String,
    /// Skill description parsed from its bundle.
    pub description: String,
    /// Creation timestamp in Unix seconds.
    pub created_at: u64,
    /// Default version number.
    pub default_version: SkillVersionNumber,
    /// Latest version number.
    pub latest_version: SkillVersionNumber,
    /// Members not modelled here.
    pub extra: ExtraFields,
}

impl SkillResource {
    /// Members not modelled here, kept as received.
    pub fn extra(&self) -> (r: &ExtraFields)
        ensures
            r@ == self.extra@,
    {
        &self.extra
    }
}

/// The cursor for the next page of a listing: the last ID, when there is
/// another page and the page names its last item.
pub open spec fn next_cursor(has_more: bool, last_id: Nullable<String>) -> Option<Seq<char>> {
    if !has_more {
        None
    } else {
        match last_id {
            Nullable::Value(id) => Some(id@),
            Nullable::Null => None,
        }
    }
}

fn next_cursor_of(has_more: bool, last_id: &Nullable<String>) -> (r: Option<&str>)
    ensures
        match r {
            Some(x) => next_cursor(has_more, *last_id) == Some(x@),
            None => next_cursor(has_more, *last_id) is None,
        },
{
    if !has_more {
        return None;
    }
    match last_id {
        Nullable::Value(id) => Some(id.as_str()),
        Nullable::Null => None,
    }
}

/// Page of Skills.
#[derive(Clone, Debug)]
pub struct SkillListResource {
    /// List discriminator.
    pub object: SkillObject,
    /// Skills on this page.
    pub data: Vec<SkillResource>,
    /// First item ID, `null` on empty pages.
    pub first_id: Nullable<String>,
    /// Last item ID, `null` on empty pages.
    pub last_id: Nullable<String>,
    /// Whether another page is available.
    pub has_more: bool,
    /// Members not modelled here.
    pub extra: ExtraFields,
}

impl SkillListResource {
    /// The cursor for the next page.
    pub fn next_after(&self) -> (r: Option<&str>)
        ensures
            match r {
                Some(x) => next_cursor(self.has_more, self.last_id) == Some(x@),
                None => next_cursor(self.has_more, self.last_id) is None,
            },
    {
        next_cursor_of(self.has_more, &self.last_id)
    }

    /// Members not modelled here, kept as received.
    pub fn extra(&self) -> (r: &ExtraFields)
        ensures
            r@ == self.extra@,
    {
        &self.extra
    }
}

/// Immutable Skill Version resource.
#[derive(Clone, Debug)]
pub struct SkillVersionResource {
    /// Version resource identifier.
    pub id: SkillVersionId,
    /// Parent Skill identifier.
    pub skill_id: SkillId,
    /// Version number or path value.
    pub version: SkillVersionNumber,
    /// Creation timestamp in Unix seconds.
    pub created_at: u64,
    /// Name parsed from this version's bundle.
    pub name: String,
    /// Description parsed from this version's bundle.
    pub description: String,
    /// Object discriminator.
    pub object: SkillVersionObject,
    /// Members not modelled here.
    pub extra: ExtraFields,
}

impl SkillVersionResource {
    /// Members not modelled here, kept as received.
    pub fn extra(&self) -> (r: &ExtraFields)
        ensures
            r@ == self.extra@,
    {
        &self.extra
    }
}

/// Page of immutable Skill Versions.
#[derive(Clone, Debug)]
pub struct SkillVersionListResource {
    /// List discriminator.
    pub object: SkillObject,
    /// Versions on this page.
    pub data: Vec<SkillVersionResource>,
    /// First item ID, `null` on empty pages.
    pub first_id: Nullable<String>,
    /// Last item ID, `null` on empty pages.
    pub last_id: Nullable<String>,
    /// Whether another page is available.
    pub has_more: bool,
    /// Members not modelled here.
    pub extra: ExtraFields,
}

impl SkillVersionListResource {
    /// The cursor for the next page.
    pub fn next_after(&self) -> (r: Option<&str>)
        ensures
            match r {
                Some(x) => next_cursor(self.has_more, self.last_id) == Some(x@),
                None => next_cursor(self.has_more, self.last_id) is None,
            },
    {
        next_cursor_of(self.has_more, &self.last_id)
    }

    /// Members not modelled here, kept as received.
    pub fn extra(&self) -> (r: &ExtraFields)
        ensures
            r@ == self.extra@,
    {
        &self.extra
    }
}

/// Body for selecting a Skill's default version.
#[derive(Debug, Clone)]
pub struct SetDefaultSkillVersionBody {
    /// Version promoted to default.
    pub default_version: SkillVersionNumber,
}

impl SetDefaultSkillVersionBody {
    /// A default-version update.
    pub fn new(default_version: &str) -> (r: Self)
        ensures
            r.default_version@ == default_version@,
    {
        SetDefaultSkillVersionBody { default_version: SkillVersionNumber::new(default_version) }
    }
}

/// Confirmation returned after deleting a Skill.
#[derive(Clone, Debug)]
pub struct DeletedSkillResource {
    pub object: DeletedSkillObject,
    pub deleted: bool,
    pub id: SkillId,
    /// Members not modelled here.
    pub extra: ExtraFields,
}

impl DeletedSkillResource {
    /// Members not modelled here, kept as received.
    pub fn extra(&self) -> (r: &ExtraFields)
        ensures
            r@ == self.extra@,
    {
        &self.extra
    }
}

/// Confirmation returned after deleting a Skill Version.
#[derive(Clone, Debug)]
pub struct DeletedSkillVersionResource {
    pub object: DeletedSkillVersionObject,
    pub deleted: bool,
    pub id: SkillVersionId,
    pub version: SkillVersionNumber,
    /// Members not modelled here.
    pub extra: ExtraFields,
}

impl DeletedSkillVersionResource {
    /// Members not modelled here, kept as received.
    pub fn extra(&self) -> (r: &ExtraFields)
        ensures
            r@ == self.extra@,
    {
        &self.extra
    }
}

/// The largest number of files one Skill upload may hold.
pub const MAX_SKILL_UPLOAD_FILES: usize = 500;

/// Invalid number of files in a Skill bundle upload.
#[derive(Debug, Clone, Copy, PartialEq, Eq, Structural)]
pub struct SkillUploadFileCountError {
    pub count: usize,
}

impl SkillUploadFileCountError {
    /// The rejected file count.
    pub fn count(self) -> (r: usize)
        ensures
            r == self.count,
    {
        self.count
    }
}

/// A segment between `/` separators: not empty, not `.` and not `..`.
pub open spec fn segment_ok(s: Seq<char>) -> bool {
    s.len() > 0 && s != seq!['.'] && s != seq!['.', '.']
}

/// Whether every `/`-separated segment of `p` is acceptable.
pub open spec fn segments_ok(p: Seq<char>) -> bool
    decreases p.len(),
{
    let i = index_of(p, '/');
    segment_ok(p.take(i as int)) && (i < p.len() ==> segments_ok(p.skip(i + 1int)))
}

/// A normalized, non-traversing relative path that is safe in a multipart
/// header: not empty, at most 1024 bytes of UTF-8, no leading or trailing
/// `/`, no `\`, `:`, `"` or control character, and no empty, `.` or `..`
/// segment.
pub open spec fn is_safe_relative_path(s: Seq<char>) -> bool {
    &&& s.len() > 0
    &&& vstd::utf8::encode_utf8(s).len() <= 1024
    &&& s[0] != '/'
    &&& s.last() != '/'
    &&& !s.contains('\\')
    &&& !s.contains(':')
    &&& !s.contains('"')
    &&& !(exists|i: int| 0 <= i < s.len() && is_control(#[trigger] s[i]))
    &&& segments_ok(s)
}

proof fn lemma_index_of_first_segment(m: Seq<char>, b: Seq<char>)
    requires
        !m.contains('/'),
        b.len() == 0 || b[0] == '/',
    ensures
        index_of(m + b, '/') == m.len(),
    decreases m.len(),
{
    if m.len() > 0 {
        assert(m[0] != '/');
        assert(!m.drop_first().contains('/')) by {
            if m.drop_first().contains('/') {
                let k = choose|k: int| 0 <= k < m.drop_first().len() && m.drop_first()[k] == '/';
                assert(m[k + 1] == '/');
            }
        }
        lemma_index_of_first_segment(m.drop_first(), b);
        assert((m + b).drop_first() =~= m.drop_first() + b);
    } else {
        assert(m + b =~= b);
    }
}

proof fn lemma_index_of_prefix(a: Seq<char>, x: Seq<char>, c: char)
    requires
        a.contains(c),
    ensures
        index_of(a + x, c) == index_of(a, c),
        index_of(a, c) < a.len(),
    decreases a.len(),
{
    if a[0] != c {
        assert(a.drop_first().contains(c)) by {
            let k = choose|k: int| 0 <= k < a.len() && a[k] == c;
            assert(a.drop_first()[k - 1] == c);
        }
        lemma_index_of_prefix(a.drop_first(), x, c);
        assert((a + x).drop_first() =~= a.drop_first() + x);
    }
}

/// A path with an empty, `.` or `..` segment `m` after the segments `a` fails
/// the segment rule.
proof fn lemma_bad_segment(a: Seq<char>, m: Seq<char>, b: Seq<char>)
    requires
        a.len() == 0 || a.last() == '/',
        !m.contains('/'),
        !segment_ok(m),
        b.len() == 0 || b[0] == '/',
    ensures
        !segments_ok(a + m + b),
    decreases a.len(),
{
    let p = a + m + b;
    if a.len() == 0 {
        assert(p =~= m + b);
        lemma_index_of_first_segment(m, b);
        assert(p.take(m.len() as int) =~= m);
    } else {
        assert(a.contains('/')) by {
            assert(a[a.len() - 1] == '/');
        }
        lemma_index_of_prefix(a, m + b, '/');
        assert(p =~= a + (m + b));
        let k = index_of(a, '/') as int;
        lemma_index_of(a, '/');
        let a2 = a.skip(k + 1);
        assert(p.skip(k + 1) =~= a2 + m + b);
        if a2.len() > 0 {
            assert(a2.last() == a.last());
        }
        lemma_bad_segment(a2, m, b);
    }
}

/// A path is refused when it is empty, longer than 1024 bytes of UTF-8,
/// starts or ends with `/`, holds a `\`, `:`, `"` or control character
/// (below U+0020, or U+007F to U+009F), or has an empty, `.` or `..`
/// segment anywhere: `a + m + b` with `a` empty or ending in `/`, `b` empty
/// or starting with `/`, and `m` one of those segments.
pub proof fn law_unsafe_skill_paths_refused(s: Seq<char>, a: Seq<char>, b: Seq<char>)
    ensures
        s.len() == 0 ==> !is_safe_relative_path(s),
        vstd::utf8::encode_utf8(s).len() > 1024 ==> !is_safe_relative_path(s),
        s.len() > 0 && (s[0] == '/' || s[s.len() - 1] == '/') ==> !is_safe_relative_path(s),
        s.contains('\\') ==> !is_safe_relative_path(s),
        s.contains(':') ==> !is_safe_relative_path(s),
        s.contains('"') ==> !is_safe_relative_path(s),
        (exists|i: int| 0 <= i < s.len() && ((#[trigger] s[i]) as u32 <= 0x1f || (0x7f <= s[i] as u32 <= 0x9f)))
            ==> !is_safe_relative_path(s),
        (a.len() == 0 || a.last() == '/') && (b.len() == 0 || b[0] == '/') ==> {
            &&& !is_safe_relative_path(a + b)
            &&& !is_safe_relative_path(a + seq!['.'] + b)
            &&& !is_safe_relative_path(a + seq!['.', '.'] + b)
        },
{
    if (a.len() == 0 || a.last() == '/') && (b.len() == 0 || b[0] == '/') {
        let e = Seq::<char>::empty();
        assert(!e.contains('/'));
        assert(!seq!['.'].contains('/')) by {
            if seq!['.'].contains('/') {
                let k = choose|k: int| 0 <= k < 1 && seq!['.'][k] == '/';
            }
        }
        assert(!seq!['.', '.'].contains('/')) by {
            if seq!['.', '.'].contains('/') {
                let k = choose|k: int| 0 <= k < 2 && seq!['.', '.'][k] == '/';
            }
        }
        lemma_bad_segment(a, e, b);
        assert(a + e + b =~= a + b);
        lemma_bad_segment(a, seq!['.'], b);
        lemma_bad_segment(a, seq!['.', '.'], b);
    }
    if exists|i: int| 0 <= i < s.len() && ((#[trigger] s[i]) as u32 <= 0x1f || (0x7f <= s[i] as u32 <= 0x9f)) {
        let i = choose|i: int| 0 <= i < s.len() && ((#[trigger] s[i]) as u32 <= 0x1f || (0x7f <= s[i] as u32 <= 0x9f));
        assert(is_control(s[i]));
    }
    if s.len() > 0 {
        assert(s.last() == s[s.len() - 1]);
    }
}

/// Whether every segment of `p`, wherever it stands, is not empty, `.` or
/// `..`.
pub open spec fn every_segment_named(p: Seq<char>) -> bool {
    forall|a: Seq<char>, m: Seq<char>, b: Seq<char>|
        #![trigger a + m + b]
        p == a + m + b && (a.len() == 0 || a.last() == '/') && !m.contains('/') && (b.len() == 0 || b[0]
            == '/') ==> m.len() > 0 && m != seq!['.'] && m != seq!['.', '.']
}

proof fn lemma_every_segment_named(p: Seq<char>)
    requires
        every_segment_named(p),
    ensures
        segments_ok(p),
    decreases p.len(),
{
    let i = index_of(p, '/') as int;
    lemma_index_of(p, '/');
    let m = p.take(i);
    let b = p.skip(i);
    assert(p =~= Seq::<char>::empty() + m + b);
    assert(!m.contains('/')) by {
        if m.contains('/') {
            let k = choose|k: int| 0 <= k < m.len() && m[k] == '/';
            assert(p[k] == '/');
        }
    }
    if i < p.len() {
        let t = p.skip(i + 1);
        assert forall|a: Seq<char>, m2: Seq<char>, b2: Seq<char>|
            t == a + m2 + b2 && (a.len() == 0 || a.last() == '/') && !m2.contains('/') && (b2.len() == 0
                || b2[0] == '/') implies m2.len() > 0 && m2 != seq!['.'] && m2 != seq!['.', '.'] by {
            let a1 = p.take(i + 1) + a;
            assert(p =~= p.take(i + 1) + t);
            assert(p.take(i + 1) + (a + m2 + b2) =~= a1 + m2 + b2);
            assert(a1.last() == '/') by {
                if a.len() == 0 {
                    assert(a1.last() == p[i]);
                } else {
                    assert(a1.last() == a.last());
                }
            }
        }
        lemma_every_segment_named(t);
    }
}

/// A path is accepted when it is not empty, takes at most 1024 bytes of
/// UTF-8, neither starts nor ends with `/`, uses only ASCII letters,
/// digits, `.`, `_`, `-`, space and `/`, and every segment is named (not
/// empty, `.` or `..`).
pub proof fn law_plain_skill_paths_accepted(s: Seq<char>)
    ensures
        ({
            &&& s.len() > 0
            &&& vstd::utf8::encode_utf8(s).len() <= 1024
            &&& s[0] != '/'
            &&& s[s.len() - 1] != '/'
            &&& forall|i: int|
                0 <= i < s.len() ==> {
                    let c = #[trigger] s[i];
                    ||| 'a' as u32 <= c as u32 <= 'z' as u32
                    ||| 'A' as u32 <= c as u32 <= 'Z' as u32
                    ||| '0' as u32 <= c as u32 <= '9' as u32
                    ||| c == '.'
                    ||| c == '_'
                    ||| c == '-'
                    ||| c == ' '
                    ||| c == '/'
                }
            &&& every_segment_named(s)
        }) ==> is_safe_relative_path(s),
{
    if s.len() > 0 && vstd::utf8::encode_utf8(s).len() <= 1024 && s[0] != '/' && s[s.len() - 1] != '/'
        && (forall|i: int|
        0 <= i < s.len() ==> {
            let c = #[trigger] s[i];
            ||| 'a' as u32 <= c as u32 <= 'z' as u32
            ||| 'A' as u32 <= c as u32 <= 'Z' as u32
            ||| '0' as u32 <= c as u32 <= '9' as u32
            ||| c == '.'
            ||| c == '_'
            ||| c == '-'
            ||| c == ' '
            ||| c == '/'
        }) && every_segment_named(s) {
        lemma_every_segment_named(s);
        assert('a' as u32 == 0x61 && 'z' as u32 == 0x7a && 'A' as u32 == 0x41 && 'Z' as u32 == 0x5a);
        assert('0' as u32 == 0x30 && '9' as u32 == 0x39);
        assert(s.last() == s[s.len() - 1]);
        assert(!s.contains('\\')) by {
            if s.contains('\\') {
                let k = choose|k: int| 0 <= k < s.len() && s[k] == '\\';
                assert(s[k] as u32 == 0x5c);
            }
        }
        assert(!s.contains(':')) by {
            if s.contains(':') {
                let k = choose|k: int| 0 <= k < s.len() && s[k] == ':';
                assert(s[k] as u32 == 0x3a);
            }
        }
        assert(!s.contains('"')) by {
            if s.contains('"') {
                let k = choose|k: int| 0 <= k < s.len() && s[k] == '"';
                assert(s[k] as u32 == 0x22);
            }
        }
        assert(!(exists|i: int| 0 <= i < s.len() && is_control(#[trigger] s[i]))) by {
            if exists|i: int| 0 <= i < s.len() && is_control(#[trigger] s[i]) {
                let k = choose|i: int| 0 <= i < s.len() && is_control(#[trigger] s[i]);
                assert(s[k] == s[k]);
            }
        }
    }
}

fn segments_ok_exec(p: &str) -> (r: bool)
    ensures
        r == segments_ok(p@),
    decreases p@.len(),
{
    let n = p.unicode_len();
    let i = find_char(p, '/');
    proof {
        lemma_index_of(p@, '/');
    }
    let seg = p.substring_char(0, i);
    assert(seg@ =~= p@.take(i as int));
    let seg_len = seg.unicode_len();
    let ok = if seg_len == 0 {
        false
    } else if seg_len == 1 {
        seg.get_char(0) != '.'
    } else if seg_len == 2 {
        !(seg.get_char(0) == '.' && seg.get_char(1) == '.')
    } else {
        true
    };
    proof {
        if seg_len == 1 {
            if seg@[0] == '.' {
                assert(seg@ =~= seq!['.']);
            } else {
                assert(seg@ != seq!['.']);
            }
        } else if seg_len == 2 {
            if seg@[0] == '.' && seg@[1] == '.' {
                assert(seg@ =~= seq!['.', '.']);
            } else {
                assert(seg@ != seq!['.', '.']);
            }
        }
    }
    if !ok {
        return false;
    }
    if i < n {
        let rest = p.substring_char(i + 1, n);
        assert(rest@ =~= p@.skip(i + 1));
        segments_ok_exec(rest)
    } else {
        true
    }
}

/// A validated relative path, sent as the multipart file name of a
/// directory Skill upload.  Its `Debug` output never shows the path.
#[derive(Clone, Debug)]
pub struct SafeRelativeSkillPath(SealedText);

impl View for SafeRelativeSkillPath {
    type V = Seq<char>;

    closed spec fn view(&self) -> Seq<char> {
        sealed_text(self.0)
    }
}

impl SafeRelativeSkillPath {
    /// Validates a normalized, non-traversing relative path.
    pub fn new(value: &str) -> (r: Result<Self, SkillUploadPathError>)
        ensures
            is_safe_relative_path(value@) ==> (r matches Ok(p) && p@ == value@),
            !is_safe_relative_path(value@) ==> r is Err,
    {
        let n = value.unicode_len();
        let valid = n > 0 && value.as_bytes().len() <= 1024 && value.get_char(0) != '/' && value.get_char(n - 1)
            != '/' && !contains_char(value, '\\') && !contains_char(value, ':') && !contains_char(
            value,
            '"',
        ) && !has_control(value) && segments_ok_exec(value);
        if !valid {
            return Err(SkillUploadPathError);
        }
        Ok(SafeRelativeSkillPath(seal_text(value.to_owned())))
    }

    /// The normalized relative path used on the multipart wire.
    pub fn as_str(&self) -> (r: &str)
        ensures
            r@ == self@,
    {
        expose_text(&self.0)
    }
}

/// A Skill directory path was absolute, traversing, malformed, or unsafe for
/// a multipart header.
#[derive(Debug, Clone, Copy, PartialEq, Eq, Structural)]
pub struct SkillUploadPathError;

/// A directory upload had an invalid file count or a repeated relative path.
#[derive(Debug, Clone, Copy, PartialEq, Eq, Structural)]
pub enum SkillDirectoryUploadError {
    /// The upload held zero or more than 500 files.
    FileCount(SkillUploadFileCountError),
    /// Two sources would be sent under the same relative file name.
    DuplicatePath,
}

/// Whether two entries share a relative path.
pub open spec fn has_duplicate_path(e: Seq<(SafeRelativeSkillPath, ReplayableMultipartSource)>) -> bool {
    exists|i: int, j: int| 0 <= i < j < e.len() && (#[trigger] e[i]).0@ == (#[trigger] e[j]).0@
}

/// Splits directory entries into their sources and paths, in order; rejects
/// an empty or oversized upload and a repeated path.
fn validate_directory_entries(entries: Vec<(SafeRelativeSkillPath, ReplayableMultipartSource)>) -> (r: Result<
    (Vec<ReplayableMultipartSource>, Vec<SafeRelativeSkillPath>),
    SkillDirectoryUploadError,
>)
    ensures
        (entries@.len() == 0 || entries@.len() > 500) ==> r == Err::<
            (Vec<ReplayableMultipartSource>, Vec<SafeRelativeSkillPath>),
            SkillDirectoryUploadError,
        >(SkillDirectoryUploadError::FileCount(SkillUploadFileCountError { count: entries.len() })),
        (0 < entries@.len() <= 500 && has_duplicate_path(entries@)) ==> r == Err::<
            (Vec<ReplayableMultipartSource>, Vec<SafeRelativeSkillPath>),
            SkillDirectoryUploadError,
        >(SkillDirectoryUploadError::DuplicatePath),
        (0 < entries@.len() <= 500 && !has_duplicate_path(entries@)) ==> (r matches Ok((files, paths))
            && files@.len() == entries@.len() && paths@.len() == entries@.len() && (forall|k: int|
            0 <= k < entries@.len() ==> files@[k] == (#[trigger] entries@[k]).1 && paths@[k]@
                == entries@[k].0@)),
{
    let n = entries.len();
    if n == 0 || n > MAX_SKILL_UPLOAD_FILES {
        return Err(SkillDirectoryUploadError::FileCount(SkillUploadFileCountError { count: n }));
    }
    let mut j: usize = 1;
    while j < n
        invariant
            n == entries@.len(),
            1 <= j <= n,
            n <= 500,
            forall|a: int, b: int|
                0 <= a < b < j ==> (#[trigger] entries@[a]).0@ != (#[trigger] entries@[b]).0@,
        decreases n - j,
    {
        let mut i: usize = 0;
        while i < j
            invariant
                n == entries@.len(),
                1 <= j < n,
                n <= 500,
                i <= j,
                forall|a: int, b: int|
                    0 <= a < b < j ==> (#[trigger] entries@[a]).0@ != (#[trigger] entries@[b]).0@,
                forall|a: int| 0 <= a < i ==> (#[trigger] entries@[a]).0@ != entries@[j as int].0@,
            decreases j - i,
        {
            if chars_eq(entries[i].0.as_str(), entries[j].0.as_str()) {
                assert(has_duplicate_path(entries@)) by {
                    assert(entries@[i as int].0@ == entries@[j as int].0@);
                }
                return Err(SkillDirectoryUploadError::DuplicatePath);
            }
            i = i + 1;
        }
        j = j + 1;
    }
    let ghost orig = entries@;
    let mut entries = entries;
    let mut files: Vec<ReplayableMultipartSource> = Vec::new();
    let mut paths: Vec<SafeRelativeSkillPath> = Vec::new();
    let mut k: usize = 0;
    while k < n
        invariant
            n == orig.len(),
            k <= n,
            entries@ == orig.skip(k as int),
            files@.len() == k,
            paths@.len() == k,
            forall|a: int| 0 <= a < k ==> files@[a] == (#[trigger] orig[a]).1 && paths@[a]@ == orig[a].0@,
        decreases n - k,
    {
        let (path, file) = entries.remove(0);
        assert(orig.skip(k as int)[0] == orig[k as int]);
        assert(entries@ =~= orig.skip(k + 1));
        files.push(file);
        paths.push(path);
        k = k + 1;
    }
    assert(!has_duplicate_path(orig));
    Ok((files, paths))
}

/// Multipart request for creating a Skill.
#[derive(Clone, Debug)]
pub struct CreateSkillRequest {
    files: Vec<ReplayableMultipartSource>,
    relative_paths: Option<Vec<SafeRelativeSkillPath>>,
    /// `files[]` is the field name for a list, `files` for a single source.
    files_array_field: bool,
}

impl CreateSkillRequest {
    pub closed spec fn spec_files(&self) -> Seq<ReplayableMultipartSource> {
        self.files@
    }

    /// The relative paths of a directory upload, in file order.
    pub closed spec fn spec_paths(&self) -> Option<Seq<Seq<char>>> {
        match self.relative_paths {
            Some(p) => Some(p@.map_values(|x: SafeRelativeSkillPath| x@)),
            None => None,
        }
    }

    pub closed spec fn spec_files_array_field(&self) -> bool {
        self.files_array_field
    }

    /// Uploads a single zip bundle or one directory file.
    pub fn new(file: ReplayableMultipartSource) -> (r: Self)
        ensures
            r.spec_files() == seq![file],
            r.spec_paths() is None,
            !r.spec_files_array_field(),
    {
        let mut files = Vec::new();
        files.push(file);
        proof {
            assert(files@ =~= seq![file]);
        }
        CreateSkillRequest { files, relative_paths: None, files_array_field: false }
    }

    /// Uploads one to 500 directory files.
    pub fn from_files(files: Vec<ReplayableMultipartSource>) -> (r: Result<Self, SkillUploadFileCountError>)
        ensures
            (files@.len() == 0 || files@.len() > 500) ==> r == Err::<Self, SkillUploadFileCountError>(
                SkillUploadFileCountError { count: files.len() },
            ),
            (0 < files@.len() <= 500) ==> (r matches Ok(q) && q.spec_files() == files@
                && q.spec_paths() is None && q.spec_files_array_field()),
    {
        let n = files.len();
        if n == 0 || n > MAX_SKILL_UPLOAD_FILES {
            return Err(SkillUploadFileCountError { count: n });
        }
        Ok(CreateSkillRequest { files, relative_paths: None, files_array_field: true })
    }

    /// Uploads a directory, keeping each validated relative path.
    pub fn from_directory_files(files: Vec<(SafeRelativeSkillPath, ReplayableMultipartSource)>) -> (r:
        Result<Self, SkillDirectoryUploadError>)
        ensures
            (files@.len() == 0 || files@.len() > 500) ==> r == Err::<Self, SkillDirectoryUploadError>(
                SkillDirectoryUploadError::FileCount(SkillUploadFileCountError { count: files.len() }),
            ),
            (0 < files@.len() <= 500 && has_duplicate_path(files@)) ==> r == Err::<
                Self,
                SkillDirectoryUploadError,
            >(SkillDirectoryUploadError::DuplicatePath),
            (0 < files@.len() <= 500 && !has_duplicate_path(files@)) ==> (r matches Ok(q)
                && q.spec_files() == files@.map_values(|e: (SafeRelativeSkillPath, ReplayableMultipartSource)| e.1)
                && q.spec_paths() == Some(files@.map_values(|e: (SafeRelativeSkillPath, ReplayableMultipartSource)| e.0@))
                && q.spec_files_array_field()),
    {
        let ghost orig = files@;
        match validate_directory_entries(files) {
            Ok((sources, paths)) => {
                let q = CreateSkillRequest {
                    files: sources,
                    relative_paths: Some(paths),
                    files_array_field: true,
                };
                proof {
                    assert(q.spec_files() =~= orig.map_values(|e: (SafeRelativeSkillPath, ReplayableMultipartSource)| e.1));
                    assert(q.spec_paths()->0 =~= orig.map_values(|e: (SafeRelativeSkillPath, ReplayableMultipartSource)| e.0@));
                }
                Ok(q)
            },
            Err(e) => Err(e),
        }
    }

    /// The multipart file fields, in order.
    pub fn files(&self) -> (r: &[ReplayableMultipartSource])
        ensures
            r@ == self.spec_files(),
    {
        self.files.as_slice()
    }

    /// The relative paths of a directory upload, in file order.
    pub fn relative_paths(&self) -> (r: Option<&[SafeRelativeSkillPath]>)
        ensures
            match r {
                Some(p) => self.spec_paths() == Some(p@.map_values(|x: SafeRelativeSkillPath| x@)),
                None => self.spec_paths() is None,
            },
    {
        match &self.relative_paths {
            Some(p) => Some(p.as_slice()),
            None => None,
        }
    }

    /// The multipart field name: `files` for a single source, `files[]` for a list.
    pub fn files_field_name(&self) -> (r: &'static str)
        ensures
            r@ == if self.spec_files_array_field() {
                "files[]"@
            } else {
                "files"@
            },
    {
        if self.files_array_field {
            "files[]"
        } else {
            "files"
        }
    }
}

/// Multipart request for creating an immutable Skill Version.
#[derive(Clone, Debug)]
pub struct CreateSkillVersionRequest {
    files: Vec<ReplayableMultipartSource>,
    relative_paths: Option<Vec<SafeRelativeSkillPath>>,
    files_array_field: bool,
    /// Whether this version becomes the default.
    pub default: Omittable<bool>,
}

impl CreateSkillVersionRequest {
    pub closed spec fn spec_files(&self) -> Seq<ReplayableMultipartSource> {
        self.files@
    }

    /// The relative paths of a directory upload, in file order.
    pub closed spec fn spec_paths(&self) -> Option<Seq<Seq<char>>> {
        match self.relative_paths {
            Some(p) => Some(p@.map_values(|x: SafeRelativeSkillPath| x@)),
            None => None,
        }
    }

    pub closed spec fn spec_files_array_field(&self) -> bool {
        self.files_array_field
    }

    /// Whether this version becomes the default.
    pub closed spec fn spec_default(&self) -> Omittable<bool> {
        self.default
    }

    /// Uploads a single zip bundle or one directory file.
    pub fn new(file: ReplayableMultipartSource) -> (r: Self)
        ensures
            r.spec_files() == seq![file],
            r.spec_paths() is None,
            !r.spec_files_array_field(),
            r.spec_default() is Omitted,
    {
        let mut files = Vec::new();
        files.push(file);
        proof {
            assert(files@ =~= seq![file]);
        }
        CreateSkillVersionRequest {
            files,
            relative_paths: None,
            files_array_field: false,
            default: Omittable::Omitted,
        }
    }

    /// Uploads one to 500 directory files.
    pub fn from_files(files: Vec<ReplayableMultipartSource>) -> (r: Result<Self, SkillUploadFileCountError>)
        ensures
            (files@.len() == 0 || files@.len() > 500) ==> r == Err::<Self, SkillUploadFileCountError>(
                SkillUploadFileCountError { count: files.len() },
            ),
            (0 < files@.len() <= 500) ==> (r matches Ok(q) && q.spec_files() == files@
                && q.spec_paths() is None && q.spec_files_array_field() && q.spec_default() is Omitted),
    {
        let n = files.len();
        if n == 0 || n > MAX_SKILL_UPLOAD_FILES {
            return Err(SkillUploadFileCountError { count: n });
        }
        Ok(CreateSkillVersionRequest {
            files,
            relative_paths: None,
            files_array_field: true,
            default: Omittable::Omitted,
        })
    }

    /// Uploads a directory version, keeping each validated relative path.
    pub fn from_directory_files(files: Vec<(SafeRelativeSkillPath, ReplayableMultipartSource)>) -> (r:
        Result<Self, SkillDirectoryUploadError>)
        ensures
            (files@.len() == 0 || files@.len() > 500) ==> r == Err::<Self, SkillDirectoryUploadError>(
                SkillDirectoryUploadError::FileCount(SkillUploadFileCountError { count: files.len() }),
            ),
            (0 < files@.len() <= 500 && has_duplicate_path(files@)) ==> r == Err::<
                Self,
                SkillDirectoryUploadError,
            >(SkillDirectoryUploadError::DuplicatePath),
            (0 < files@.len() <= 500 && !has_duplicate_path(files@)) ==> (r matches Ok(q)
                && q.spec_files() == files@.map_values(|e: (SafeRelativeSkillPath, ReplayableMultipartSource)| e.1)
                && q.spec_paths() == Some(files@.map_values(|e: (SafeRelativeSkillPath, ReplayableMultipartSource)| e.0@))
                && q.spec_files_array_field() && q.spec_default() is Omitted),
    {
        let ghost orig = files@;
        match validate_directory_entries(files) {
            Ok((sources, paths)) => {
                let q = CreateSkillVersionRequest {
                    files: sources,
                    relative_paths: Some(paths),
                    files_array_field: true,
                    default: Omittable::Omitted,
                };
                proof {
                    assert(q.spec_files() =~= orig.map_values(|e: (SafeRelativeSkillPath, ReplayableMultipartSource)| e.1));
                    assert(q.spec_paths()->0 =~= orig.map_values(|e: (SafeRelativeSkillPath, ReplayableMultipartSource)| e.0@));
                }
                Ok(q)
            },
            Err(e) => Err(e),
        }
    }

    /// Marks the new version as the default.
    pub fn set_default(self, default: bool) -> (r: Self)
        ensures
            r.spec_default() == Omittable::Value(default),
            r.spec_files() == self.spec_files(),
            r.spec_paths() == self.spec_paths(),
            r.spec_files_array_field() == self.spec_files_array_field(),
    {
        CreateSkillVersionRequest { default: Omittable::Value(default), ..self }
    }

    /// The multipart file fields, in order.
    pub fn files(&self) -> (r: &[ReplayableMultipartSource])
        ensures
            r@ == self.spec_files(),
    {
        self.files.as_slice()
    }

    /// The relative paths of a directory upload, in file order.
    pub fn relative_paths(&self) -> (r: Option<&[SafeRelativeSkillPath]>)
        ensures
            match r {
                Some(p) => self.spec_paths() == Some(p@.map_values(|x: SafeRelativeSkillPath| x@)),
                None => self.spec_paths() is None,
            },
    {
        match &self.relative_paths {
            Some(p) => Some(p.as_slice()),
            None => None,
        }
    }

    /// The multipart field name: `files` for a single source, `files[]` for a list.
    pub fn files_field_name(&self) -> (r: &'static str)
        ensures
            r@ == if self.spec_files_array_field() {
                "files[]"@
            } else {
                "files"@
            },
    {
        if self.files_array_field {
            "files[]"
        } else {
            "files"
        }
    }
}

/// Raw zip or JSON-text content returned by Skill content endpoints.
pub type SkillContent = FileContent;


/// The documented limits of Skills.
pub proof fn law_skill_limits()
    ensures
        MAX_SKILL_LIST_LIMIT == 100,
        MAX_SKILL_UPLOAD_FILES == 500,
{
}

} // verus!
