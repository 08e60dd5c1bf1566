//! Vector stores, their attached files, file batches and search.
//!
//! Missing, explicit `null` and present values stay distinct.  Metadata maps
//! are checked against their documented limits (16 pairs, keys of 64
//! characters, values of 512) when a pair is inserted and by the `validate`
//! hooks of the create and update requests; decoding keeps oversized maps.
//! Numeric ranges are checked by the constructors of their types.
use vstd::prelude::*;
use crate::entries::{
    keys_ordered, entry_get, entry_insert, lemma_insert_keeps_order, lemma_get_after_insert,
    lemma_insert_len,
};
use crate::json::{ExtraFields, JsonObject};
use crate::scalar::{FileId, VectorStoreId};
use crate::text::{chars_eq, chars_lt, str_lt, lemma_chars_lt_transitive, lemma_chars_lt_irreflexive};
use crate::wire::{Nullable, Omittable};

verus! {


/// Opaque identifier of a vector-store file batch.
#[derive(Debug, Clone)]
pub struct VectorStoreFileBatchId(pub String);

impl View for VectorStoreFileBatchId {
    type V = Seq<char>;

    open spec fn view(&self) -> Seq<char> {
        self.0@
    }
}

impl VectorStoreFileBatchId {
    /// Creates an ID without imposing assumptions on its format.
    pub fn new(value: &str) -> (r: Self)
        ensures
            r@ == value@,
    {
        VectorStoreFileBatchId(value.to_owned())
    }

    /// Borrows the opaque wire value.
    pub fn as_str(&self) -> (r: &str)
        ensures
            r@ == self@,
    {
        self.0.as_str()
    }

    /// Consumes the ID and returns its wire value.
    pub fn into_string(self) -> (r: String)
        ensures
            r@ == self@,
    {
        self.0
    }
}

/// Object discriminator of a vector store.
#[derive(Debug, Clone)]
pub enum VectorStoreObjectType {
    /// `vector_store`.
    VectorStore,
    /// A value added by the service after this crate was released.
    Unknown(String),
}

/// Each variant of [`VectorStoreObjectType`] stands for the wire value the API pairs
/// with it, and those values are exactly the ones known.
pub proof fn law_vector_store_object_type_wire_values(value: Seq<char>)
    ensures
        VectorStoreObjectType::VectorStore.wire() == "vector_store"@,
        VectorStoreObjectType::is_known_wire(value) <==> (value == "vector_store"@),
{
}

impl VectorStoreObjectType {
    /// The exact string used on the wire.
    pub open spec fn wire(&self) -> Seq<char> {
        match self {
            VectorStoreObjectType::VectorStore => "vector_store"@,
            VectorStoreObjectType::Unknown(s) => s@,
        }
    }

    /// Whether `value` is one of the wire values this crate knows.
    pub open spec fn is_known_wire(value: Seq<char>) -> bool {
        value == "vector_store"@
    }

    /// Parses a wire value while retaining unknown strings verbatim.
    pub fn from_raw(value: &str) -> (r: Self)
        ensures
            r.wire() == value@,
            (r is Unknown) == !Self::is_known_wire(value@),
    {
        if chars_eq(value, "vector_store") {
            VectorStoreObjectType::VectorStore
        } else {
            VectorStoreObjectType::Unknown(value.to_owned())
        }
    }

    /// The exact string used on the wire.
    pub fn as_str(&self) -> (r: &str)
        ensures
            r@ == self.wire(),
    {
        match self {
            VectorStoreObjectType::VectorStore => "vector_store",
            VectorStoreObjectType::Unknown(s) => s.as_str(),
        }
    }

    /// Whether this crate knows the wire value.
    pub fn is_known(&self) -> (r: bool)
        ensures
            r == !(self is Unknown),
    {
        match self {
            VectorStoreObjectType::Unknown(_) => false,
            _ => true,
        }
    }

    /// The raw value, only when it is unknown to this crate.
    pub fn unknown_value(&self) -> (r: Option<&str>)
        ensures
            match self {
                VectorStoreObjectType::Unknown(s) => r matches Some(x) && x@ == s@,
                _ => r is None,
            },
    {
        match self {
            VectorStoreObjectType::Unknown(s) => Some(s.as_str()),
            _ => None,
        }
    }
}

/// Object discriminator of a vector-store deletion.
#[derive(Debug, Clone)]
pub enum DeletedVectorStoreObjectType {
    /// `vector_store.deleted`.
    Deleted,
    /// A value added by the service after this crate was released.
    Unknown(String),
}

/// Each variant of [`DeletedVectorStoreObjectType`] stands for the wire value the API pairs
/// with it, and those values are exactly the ones known.
pub proof fn law_deleted_vector_store_object_type_wire_values(value: Seq<char>)
    ensures
        DeletedVectorStoreObjectType::Deleted.wire() == "vector_store.deleted"@,
        DeletedVectorStoreObjectType::is_known_wire(value) <==> (value == "vector_store.deleted"@),
{
}

impl DeletedVectorStoreObjectType {
    /// The exact string used on the wire.
    pub open spec fn wire(&self) -> Seq<char> {
        match self {
            DeletedVectorStoreObjectType::Deleted => "vector_store.deleted"@,
            DeletedVectorStoreObjectType::Unknown(s) => s@,
        }
    }

    /// Whether `value` is one of the wire values this crate knows.
    pub open spec fn is_known_wire(value: Seq<char>) -> bool {
        value == "vector_store.deleted"@
    }

    /// Parses a wire value while retaining unknown strings verbatim.
    pub fn from_raw(value: &str) -> (r: Self)
        ensures
            r.wire() == value@,
            (r is Unknown) == !Self::is_known_wire(value@),
    {
        if chars_eq(value, "vector_store.deleted") {
            DeletedVectorStoreObjectType::Deleted
        } else {
            DeletedVectorStoreObjectType::Unknown(value.to_owned())
        }
    }

    /// The exact string used on the wire.
    pub fn as_str(&self) -> (r: &str)
        ensures
            r@ == self.wire(),
    {
        match self {
            DeletedVectorStoreObjectType::Deleted => "vector_store.deleted",
            DeletedVectorStoreObjectType::Unknown(s) => s.as_str(),
        }
    }

    /// Whether this crate knows the wire value.
    pub fn is_known(&self) -> (r: bool)
        ensures
            r == !(self is Unknown),
    {
        match self {
            DeletedVectorStoreObjectType::Unknown(_) => false,
            _ => true,
        }
    }

    /// The raw value, only when it is unknown to this crate.
    pub fn unknown_value(&self) -> (r: Option<&str>)
        ensures
            match self {
                DeletedVectorStoreObjectType::Unknown(s) => r matches Some(x) && x@ == s@,
                _ => r is None,
            },
    {
        match self {
            DeletedVectorStoreObjectType::Unknown(s) => Some(s.as_str()),
            _ => None,
        }
    }
}

/// Object discriminator of an attached file.
#[derive(Debug, Clone)]
pub enum VectorStoreFileObjectType {
    /// `vector_store.file`.
    File,
    /// A value added by the service after this crate was released.
    Unknown(String),
}

/// Each variant of [`VectorStoreFileObjectType`] stands for the wire value the API pairs
/// with it, and those values are exactly the ones known.
pub proof fn law_vector_store_file_object_type_wire_values(value: Seq<char>)
    ensures
        VectorStoreFileObjectType::File.wire() == "vector_store.file"@,
        VectorStoreFileObjectType::is_known_wire(value) <==> (value == "vector_store.file"@),
{
}

impl VectorStoreFileObjectType {
    /// The exact string used on the wire.
    pub open spec fn wire(&self) -> Seq<char> {
        match self {
            VectorStoreFileObjectType::File => "vector_store.file"@,
            VectorStoreFileObjectType::Unknown(s) => s@,
        }
    }

    /// Whether `value` is one of the wire values this crate knows.
    pub open spec fn is_known_wire(value: Seq<char>) -> bool {
        value == "vector_store.file"@
    }

    /// Parses a wire value while retaining unknown strings verbatim.
    pub fn from_raw(value: &str) -> (r: Self)
        ensures
            r.wire() == value@,
            (r is Unknown) == !Self::is_known_wire(value@),
    {
        if chars_eq(value, "vector_store.file") {
            VectorStoreFileObjectType::File
        } else {
            VectorStoreFileObjectType::Unknown(value.to_owned())
        }
    }

    /// The exact string used on the wire.
    pub fn as_str(&self) -> (r: &str)
        ensures
            r@ == self.wire(),
    {
        match self {
            VectorStoreFileObjectType::File => "vector_store.file",
            VectorStoreFileObjectType::Unknown(s) => s.as_str(),
        }
    }

    /// Whether this crate knows the wire value.
    pub fn is_known(&self) -> (r: bool)
        ensures
            r == !(self is Unknown),
    {
        match self {
            VectorStoreFileObjectType::Unknown(_) => false,
            _ => true,
        }
    }

    /// The raw value, only when it is unknown to this crate.
    pub fn unknown_value(&self) -> (r: Option<&str>)
        ensures
            match self {
                VectorStoreFileObjectType::Unknown(s) => r matches Some(x) && x@ == s@,
                _ => r is None,
            },
    {
        match self {
            VectorStoreFileObjectType::Unknown(s) => Some(s.as_str()),
            _ => None,
        }
    }
}

/// Object discriminator of a file detachment.
#[derive(Debug, Clone)]
pub enum DeletedVectorStoreFileObjectType {
    /// `vector_store.file.deleted`.
    Deleted,
    /// A value added by the service after this crate was released.
    Unknown(String),
}

/// Each variant of [`DeletedVectorStoreFileObjectType`] stands for the wire value the API pairs
/// with it, and those values are exactly the ones known.
pub proof fn law_deleted_vector_store_file_object_type_wire_values(value: Seq<char>)
    ensures
        DeletedVectorStoreFileObjectType::Deleted.wire() == "vector_store.file.deleted"@,
        DeletedVectorStoreFileObjectType::is_known_wire(value) <==> (value == "vector_store.file.deleted"@),
{
}

impl DeletedVectorStoreFileObjectType {
    /// The exact string used on the wire.
    pub open spec fn wire(&self) -> Seq<char> {
        match self {
            DeletedVectorStoreFileObjectType::Deleted => "vector_store.file.deleted"@,
            DeletedVectorStoreFileObjectType::Unknown(s) => s@,
        }
    }

    /// Whether `value` is one of the wire values this crate knows.
    pub open spec fn is_known_wire(value: Seq<char>) -> bool {
        value == "vector_store.file.deleted"@
    }

    /// Parses a wire value while retaining unknown strings verbatim.
    pub fn from_raw(value: &str) -> (r: Self)
        ensures
            r.wire() == value@,
            (r is Unknown) == !Self::is_known_wire(value@),
    {
        if chars_eq(value, "vector_store.file.deleted") {
            DeletedVectorStoreFileObjectType::Deleted
        } else {
            DeletedVectorStoreFileObjectType::Unknown(value.to_owned())
        }
    }

    /// The exact string used on the wire.
    pub fn as_str(&self) -> (r: &str)
        ensures
            r@ == self.wire(),
    {
        match self {
            DeletedVectorStoreFileObjectType::Deleted => "vector_store.file.deleted",
            DeletedVectorStoreFileObjectType::Unknown(s) => s.as_str(),
        }
    }

    /// Whether this crate knows the wire value.
    pub fn is_known(&self) -> (r: bool)
        ensures
            r == !(self is Unknown),
    {
        match self {
            DeletedVectorStoreFileObjectType::Unknown(_) => false,
            _ => true,
        }
    }

    /// The raw value, only when it is unknown to this crate.
    pub fn unknown_value(&self) -> (r: Option<&str>)
        ensures
            match self {
                DeletedVectorStoreFileObjectType::Unknown(s) => r matches Some(x) && x@ == s@,
                _ => r is None,
            },
    {
        match self {
            DeletedVectorStoreFileObjectType::Unknown(s) => Some(s.as_str()),
            _ => None,
        }
    }
}

/// Object discriminator of a file batch.
#[derive(Debug, Clone)]
pub enum VectorStoreFileBatchObjectType {
    /// `vector_store.files_batch`.
    FilesBatch,
    /// A value added by the service after this crate was released.
    Unknown(String),
}

/// Each variant of [`VectorStoreFileBatchObjectType`] stands for the wire value the API pairs
/// with it, and those values are exactly the ones known.
pub proof fn law_vector_store_file_batch_object_type_wire_values(value: Seq<char>)
    ensures
        VectorStoreFileBatchObjectType::FilesBatch.wire() == "vector_store.files_batch"@,
        VectorStoreFileBatchObjectType::is_known_wire(value) <==> (value == "vector_store.files_batch"@),
{
}

impl VectorStoreFileBatchObjectType {
    /// The exact string used on the wire.
    pub open spec fn wire(&self) -> Seq<char> {
        match self {
            VectorStoreFileBatchObjectType::FilesBatch => "vector_store.files_batch"@,
            VectorStoreFileBatchObjectType::Unknown(s) => s@,
        }
    }

    /// Whether `value` is one of the wire values this crate knows.
    pub open spec fn is_known_wire(value: Seq<char>) -> bool {
        value == "vector_store.files_batch"@
    }

    /// Parses a wire value while retaining unknown strings verbatim.
    pub fn from_raw(value: &str) -> (r: Self)
        ensures
            r.wire() == value@,
            (r is Unknown) == !Self::is_known_wire(value@),
    {
        if chars_eq(value, "vector_store.files_batch") {
            VectorStoreFileBatchObjectType::FilesBatch
        } else {
            VectorStoreFileBatchObjectType::Unknown(value.to_owned())
        }
    }

    /// The exact string used on the wire.
    pub fn as_str(&self) -> (r: &str)
        ensures
            r@ == self.wire(),
    {
        match self {
            VectorStoreFileBatchObjectType::FilesBatch => "vector_store.files_batch",
            VectorStoreFileBatchObjectType::Unknown(s) => s.as_str(),
        }
    }

    /// Whether this crate knows the wire value.
    pub fn is_known(&self) -> (r: bool)
        ensures
            r == !(self is Unknown),
    {
        match self {
            VectorStoreFileBatchObjectType::Unknown(_) => false,
            _ => true,
        }
    }

    /// The raw value, only when it is unknown to this crate.
    pub fn unknown_value(&self) -> (r: Option<&str>)
        ensures
            match self {
                VectorStoreFileBatchObjectType::Unknown(s) => r matches Some(x) && x@ == s@,
                _ => r is None,
            },
    {
        match self {
            VectorStoreFileBatchObjectType::Unknown(s) => Some(s.as_str()),
            _ => None,
        }
    }
}

/// Collection discriminator of list endpoints.
#[derive(Debug, Clone)]
pub enum VectorStoreListObjectType {
    /// `list`.
    List,
    /// A value added by the service after this crate was released.
    Unknown(String),
}

/// Each variant of [`VectorStoreListObjectType`] stands for the wire value the API pairs
/// with it, and those values are exactly the ones known.
pub proof fn law_vector_store_list_object_type_wire_values(value: Seq<char>)
    ensures
        VectorStoreListObjectType::List.wire() == "list"@,
        VectorStoreListObjectType::is_known_wire(value) <==> (value == "list"@),
{
}

impl VectorStoreListObjectType {
    /// The exact string used on the wire.
    pub open spec fn wire(&self) -> Seq<char> {
        match self {
            VectorStoreListObjectType::List => "list"@,
            VectorStoreListObjectType::Unknown(s) => s@,
        }
    }

    /// Whether `value` is one of the wire values this crate knows.
    pub open spec fn is_known_wire(value: Seq<char>) -> bool {
        value == "list"@
    }

    /// Parses a wire value while retaining unknown strings verbatim.
    pub fn from_raw(value: &str) -> (r: Self)
        ensures
            r.wire() == value@,
            (r is Unknown) == !Self::is_known_wire(value@),
    {
        if chars_eq(value, "list") {
            VectorStoreListObjectType::List
        } else {
            VectorStoreListObjectType::Unknown(value.to_owned())
        }
    }

    /// The exact string used on the wire.
    pub fn as_str(&self) -> (r: &str)
        ensures
            r@ == self.wire(),
    {
        match self {
            VectorStoreListObjectType::List => "list",
            VectorStoreListObjectType::Unknown(s) => s.as_str(),
        }
    }

    /// Whether this crate knows the wire value.
    pub fn is_known(&self) -> (r: bool)
        ensures
            r == !(self is Unknown),
    {
        match self {
            VectorStoreListObjectType::Unknown(_) => false,
            _ => true,
        }
    }

    /// The raw value, only when it is unknown to this crate.
    pub fn unknown_value(&self) -> (r: Option<&str>)
        ensures
            match self {
                VectorStoreListObjectType::Unknown(s) => r matches Some(x) && x@ == s@,
                _ => r is None,
            },
    {
        match self {
            VectorStoreListObjectType::Unknown(s) => Some(s.as_str()),
            _ => None,
        }
    }
}

/// Object discriminator of a search-result page.
#[derive(Debug, Clone)]
pub enum VectorStoreSearchPageObjectType {
    /// `vector_store.search_results.page`.
    Page,
    /// A value added by the service after this crate was released.
    Unknown(String),
}

/// Each variant of [`VectorStoreSearchPageObjectType`] stands for the wire value the API pairs
/// with it, and those values are exactly the ones known.
pub proof fn law_vector_store_search_page_object_type_wire_values(value: Seq<char>)
    ensures
        VectorStoreSearchPageObjectType::Page.wire() == "vector_store.search_results.page"@,
        VectorStoreSearchPageObjectType::is_known_wire(value) <==> (value == "vector_store.search_results.page"@),
{
}

impl VectorStoreSearchPageObjectType {
    /// The exact string used on the wire.
    pub open spec fn wire(&self) -> Seq<char> {
        match self {
            VectorStoreSearchPageObjectType::Page => "vector_store.search_results.page"@,
            VectorStoreSearchPageObjectType::Unknown(s) => s@,
        }
    }

    /// Whether `value` is one of the wire values this crate knows.
    pub open spec fn is_known_wire(value: Seq<char>) -> bool {
        value == "vector_store.search_results.page"@
    }

    /// Parses a wire value while retaining unknown strings verbatim.
    pub fn from_raw(value: &str) -> (r: Self)
        ensures
            r.wire() == value@,
            (r is Unknown) == !Self::is_known_wire(value@),
    {
        if chars_eq(value, "vector_store.search_results.page") {
            VectorStoreSearchPageObjectType::Page
        } else {
            VectorStoreSearchPageObjectType::Unknown(value.to_owned())
        }
    }

    /// The exact string used on the wire.
    pub fn as_str(&self) -> (r: &str)
        ensures
            r@ == self.wire(),
    {
        match self {
            VectorStoreSearchPageObjectType::Page => "vector_store.search_results.page",
            VectorStoreSearchPageObjectType::Unknown(s) => s.as_str(),
        }
    }

    /// Whether this crate knows the wire value.
    pub fn is_known(&self) -> (r: bool)
        ensures
            r == !(self is Unknown),
    {
        match self {
            VectorStoreSearchPageObjectType::Unknown(_) => false,
            _ => true,
        }
    }

    /// The raw value, only when it is unknown to this crate.
    pub fn unknown_value(&self) -> (r: Option<&str>)
        ensures
            match self {
                VectorStoreSearchPageObjectType::Unknown(s) => r matches Some(x) && x@ == s@,
                _ => r is None,
            },
    {
        match self {
            VectorStoreSearchPageObjectType::Unknown(s) => Some(s.as_str()),
            _ => None,
        }
    }
}

/// Object discriminator of parsed file content.
#[derive(Debug, Clone)]
pub enum VectorStoreFileContentPageObjectType {
    /// `vector_store.file_content.page`.
    Page,
    /// A value added by the service after this crate was released.
    Unknown(String),
}

/// Each variant of [`VectorStoreFileContentPageObjectType`] stands for the wire value the API pairs
/// with it, and those values are exactly the ones known.
pub proof fn law_vector_store_file_content_page_object_type_wire_values(value: Seq<char>)
    ensures
        VectorStoreFileContentPageObjectType::Page.wire() == "vector_store.file_content.page"@,
        VectorStoreFileContentPageObjectType::is_known_wire(value) <==> (value == "vector_store.file_content.page"@),
{
}

impl VectorStoreFileContentPageObjectType {
    /// The exact string used on the wire.
    pub open spec fn wire(&self) -> Seq<char> {
        match self {
            VectorStoreFileContentPageObjectType::Page => "vector_store.file_content.page"@,
            VectorStoreFileContentPageObjectType::Unknown(s) => s@,
        }
    }

    /// Whether `value` is one of the wire values this crate knows.
    pub open spec fn is_known_wire(value: Seq<char>) -> bool {
        value == "vector_store.file_content.page"@
    }

    /// Parses a wire value while retaining unknown strings verbatim.
    pub fn from_raw(value: &str) -> (r: Self)
        ensures
            r.wire() == value@,
            (r is Unknown) == !Self::is_known_wire(value@),
    {
        if chars_eq(value, "vector_store.file_content.page") {
            VectorStoreFileContentPageObjectType::Page
        } else {
            VectorStoreFileContentPageObjectType::Unknown(value.to_owned())
        }
    }

    /// The exact string used on the wire.
    pub fn as_str(&self) -> (r: &str)
        ensures
            r@ == self.wire(),
    {
        match self {
            VectorStoreFileContentPageObjectType::Page => "vector_store.file_content.page",
            VectorStoreFileContentPageObjectType::Unknown(s) => s.as_str(),
        }
    }

    /// Whether this crate knows the wire value.
    pub fn is_known(&self) -> (r: bool)
        ensures
            r == !(self is Unknown),
    {
        match self {
            VectorStoreFileContentPageObjectType::Unknown(_) => false,
            _ => true,
        }
    }

    /// The raw value, only when it is unknown to this crate.
    pub fn unknown_value(&self) -> (r: Option<&str>)
        ensures
            match self {
                VectorStoreFileContentPageObjectType::Unknown(s) => r matches Some(x) && x@ == s@,
                _ => r is None,
            },
    {
        match self {
            VectorStoreFileContentPageObjectType::Unknown(s) => Some(s.as_str()),
            _ => None,
        }
    }
}

/// Lifecycle state of a vector store.
#[derive(Debug, Clone)]
pub enum VectorStoreStatus {
    /// `expired`.
    Expired,
    /// `in_progress`.
    InProgress,
    /// `completed`.
    Completed,
    /// A value added by the service after this crate was released.
    Unknown(String),
}

/// Each variant of [`VectorStoreStatus`] stands for the wire value the API pairs
/// with it, and those values are exactly the ones known.
pub proof fn law_vector_store_status_wire_values(value: Seq<char>)
    ensures
        VectorStoreStatus::Expired.wire() == "expired"@,
        VectorStoreStatus::InProgress.wire() == "in_progress"@,
        VectorStoreStatus::Completed.wire() == "completed"@,
        VectorStoreStatus::is_known_wire(value) <==> (value == "expired"@ || value == "in_progress"@ || value == "completed"@),
{
}

impl VectorStoreStatus {
    /// The exact string used on the wire.
    pub open spec fn wire(&self) -> Seq<char> {
        match self {
            VectorStoreStatus::Expired => "expired"@,
            VectorStoreStatus::InProgress => "in_progress"@,
            VectorStoreStatus::Completed => "completed"@,
            VectorStoreStatus::Unknown(s) => s@,
        }
    }

    /// Whether `value` is one of the wire values this crate knows.
    pub open spec fn is_known_wire(value: Seq<char>) -> bool {
        value == "expired"@ || value == "in_progress"@ || value == "completed"@
    }

    /// Parses a wire value while retaining unknown strings verbatim.
    pub fn from_raw(value: &str) -> (r: Self)
        ensures
            r.wire() == value@,
            (r is Unknown) == !Self::is_known_wire(value@),
    {
        if chars_eq(value, "expired") {
            VectorStoreStatus::Expired
        } else if chars_eq(value, "in_progress") {
            VectorStoreStatus::InProgress
        } else if chars_eq(value, "completed") {
            VectorStoreStatus::Completed
        } else {
            VectorStoreStatus::Unknown(value.to_owned())
        }
    }

    /// The exact string used on the wire.
    pub fn as_str(&self) -> (r: &str)
        ensures
            r@ == self.wire(),
    {
        match self {
            VectorStoreStatus::Expired => "expired",
            VectorStoreStatus::InProgress => "in_progress",
            VectorStoreStatus::Completed => "completed",
            VectorStoreStatus::Unknown(s) => s.as_str(),
        }
    }

    /// Whether this crate knows the wire value.
    pub fn is_known(&self) -> (r: bool)
        ensures
            r == !(self is Unknown),
    {
        match self {
            VectorStoreStatus::Unknown(_) => false,
            _ => true,
        }
    }

    /// The raw value, only when it is unknown to this crate.
    pub fn unknown_value(&self) -> (r: Option<&str>)
        ensures
            match self {
                VectorStoreStatus::Unknown(s) => r matches Some(x) && x@ == s@,
                _ => r is None,
            },
    {
        match self {
            VectorStoreStatus::Unknown(s) => Some(s.as_str()),
            _ => None,
        }
    }
}

/// Lifecycle state of attached files and file batches.
#[derive(Debug, Clone)]
pub enum VectorStoreFileStatus {
    /// `in_progress`.
    InProgress,
    /// `completed`.
    Completed,
    /// `cancelled`.
    Cancelled,
    /// `failed`.
    Failed,
    /// A value added by the service after this crate was released.
    Unknown(String),
}

/// Each variant of [`VectorStoreFileStatus`] stands for the wire value the API pairs
/// with it, and those values are exactly the ones known.
pub proof fn law_vector_store_file_status_wire_values(value: Seq<char>)
    ensures
        VectorStoreFileStatus::InProgress.wire() == "in_progress"@,
        VectorStoreFileStatus::Completed.wire() == "completed"@,
        VectorStoreFileStatus::Cancelled.wire() == "cancelled"@,
        VectorStoreFileStatus::Failed.wire() == "failed"@,
        VectorStoreFileStatus::is_known_wire(value) <==> (value == "in_progress"@ || value == "completed"@ || value == "cancelled"@ || value == "failed"@),
{
}

impl VectorStoreFileStatus {
    /// The exact string used on the wire.
    pub open spec fn wire(&self) -> Seq<char> {
        match self {
            VectorStoreFileStatus::InProgress => "in_progress"@,
            VectorStoreFileStatus::Completed => "completed"@,
            VectorStoreFileStatus::Cancelled => "cancelled"@,
            VectorStoreFileStatus::Failed => "failed"@,
            VectorStoreFileStatus::Unknown(s) => s@,
        }
    }

    /// Whether `value` is one of the wire values this crate knows.
    pub open spec fn is_known_wire(value: Seq<char>) -> bool {
        value == "in_progress"@ || value == "completed"@ || value == "cancelled"@ || value == "failed"@
    }

    /// Parses a wire value while retaining unknown strings verbatim.
    pub fn from_raw(value: &str) -> (r: Self)
        ensures
            r.wire() == value@,
            (r is Unknown) == !Self::is_known_wire(value@),
    {
        if chars_eq(value, "in_progress") {
            VectorStoreFileStatus::InProgress
        } else if chars_eq(value, "completed") {
            VectorStoreFileStatus::Completed
        } else if chars_eq(value, "cancelled") {
            VectorStoreFileStatus::Cancelled
        } else if chars_eq(value, "failed") {
            VectorStoreFileStatus::Failed
        } else {
            VectorStoreFileStatus::Unknown(value.to_owned())
        }
    }

    /// The exact string used on the wire.
    pub fn as_str(&self) -> (r: &str)
        ensures
            r@ == self.wire(),
    {
        match self {
            VectorStoreFileStatus::InProgress => "in_progress",
            VectorStoreFileStatus::Completed => "completed",
            VectorStoreFileStatus::Cancelled => "cancelled",
            VectorStoreFileStatus::Failed => "failed",
            VectorStoreFileStatus::Unknown(s) => s.as_str(),
        }
    }

    /// Whether this crate knows the wire value.
    pub fn is_known(&self) -> (r: bool)
        ensures
            r == !(self is Unknown),
    {
        match self {
            VectorStoreFileStatus::Unknown(_) => false,
            _ => true,
        }
    }

    /// The raw value, only when it is unknown to this crate.
    pub fn unknown_value(&self) -> (r: Option<&str>)
        ensures
            match self {
                VectorStoreFileStatus::Unknown(s) => r matches Some(x) && x@ == s@,
                _ => r is None,
            },
    {
        match self {
            VectorStoreFileStatus::Unknown(s) => Some(s.as_str()),
            _ => None,
        }
    }
}

/// Last-error code of an attached file.
#[derive(Debug, Clone)]
pub enum VectorStoreFileErrorCode {
    /// `server_error`.
    ServerError,
    /// `unsupported_file`.
    UnsupportedFile,
    /// `invalid_file`.
    InvalidFile,
    /// A value added by the service after this crate was released.
    Unknown(String),
}

/// Each variant of [`VectorStoreFileErrorCode`] stands for the wire value the API pairs
/// with it, and those values are exactly the ones known.
pub proof fn law_vector_store_file_error_code_wire_values(value: Seq<char>)
    ensures
        VectorStoreFileErrorCode::ServerError.wire() == "server_error"@,
        VectorStoreFileErrorCode::UnsupportedFile.wire() == "unsupported_file"@,
        VectorStoreFileErrorCode::InvalidFile.wire() == "invalid_file"@,
        VectorStoreFileErrorCode::is_known_wire(value) <==> (value == "server_error"@ || value == "unsupported_file"@ || value == "invalid_file"@),
{
}

impl VectorStoreFileErrorCode {
    /// The exact string used on the wire.
    pub open spec fn wire(&self) -> Seq<char> {
        match self {
            VectorStoreFileErrorCode::ServerError => "server_error"@,
            VectorStoreFileErrorCode::UnsupportedFile => "unsupported_file"@,
            VectorStoreFileErrorCode::InvalidFile => "invalid_file"@,
            VectorStoreFileErrorCode::Unknown(s) => s@,
        }
    }

    /// Whether `value` is one of the wire values this crate knows.
    pub open spec fn is_known_wire(value: Seq<char>) -> bool {
        value == "server_error"@ || value == "unsupported_file"@ || value == "invalid_file"@
    }

    /// Parses a wire value while retaining unknown strings verbatim.
    pub fn from_raw(value: &str) -> (r: Self)
        ensures
            r.wire() == value@,
            (r is Unknown) == !Self::is_known_wire(value@),
    {
        if chars_eq(value, "server_error") {
            VectorStoreFileErrorCode::ServerError
        } else if chars_eq(value, "unsupported_file") {
            VectorStoreFileErrorCode::UnsupportedFile
        } else if chars_eq(value, "invalid_file") {
            VectorStoreFileErrorCode::InvalidFile
        } else {
            VectorStoreFileErrorCode::Unknown(value.to_owned())
        }
    }

    /// The exact string used on the wire.
    pub fn as_str(&self) -> (r: &str)
        ensures
            r@ == self.wire(),
    {
        match self {
            VectorStoreFileErrorCode::ServerError => "server_error",
            VectorStoreFileErrorCode::UnsupportedFile => "unsupported_file",
            VectorStoreFileErrorCode::InvalidFile => "invalid_file",
            VectorStoreFileErrorCode::Unknown(s) => s.as_str(),
        }
    }

    /// Whether this crate knows the wire value.
    pub fn is_known(&self) -> (r: bool)
        ensures
            r == !(self is Unknown),
    {
        match self {
            VectorStoreFileErrorCode::Unknown(_) => false,
            _ => true,
        }
    }

    /// The raw value, only when it is unknown to this crate.
    pub fn unknown_value(&self) -> (r: Option<&str>)
        ensures
            match self {
                VectorStoreFileErrorCode::Unknown(s) => r matches Some(x) && x@ == s@,
                _ => r is None,
            },
    {
        match self {
            VectorStoreFileErrorCode::Unknown(s) => Some(s.as_str()),
            _ => None,
        }
    }
}

/// Creation-time sort order of list endpoints.
#[derive(Debug, Clone)]
pub enum VectorStoreSortOrder {
    /// `asc`.
    Ascending,
    /// `desc`.
    Descending,
    /// A value added by the service after this crate was released.
    Unknown(String),
}

/// Each variant of [`VectorStoreSortOrder`] stands for the wire value the API pairs
/// with it, and those values are exactly the ones known.
pub proof fn law_vector_store_sort_order_wire_values(value: Seq<char>)
    ensures
        VectorStoreSortOrder::Ascending.wire() == "asc"@,
        VectorStoreSortOrder::Descending.wire() == "desc"@,
        VectorStoreSortOrder::is_known_wire(value) <==> (value == "asc"@ || value == "desc"@),
{
}

impl VectorStoreSortOrder {
    /// The exact string used on the wire.
    pub open spec fn wire(&self) -> Seq<char> {
        match self {
            VectorStoreSortOrder::Ascending => "asc"@,
            VectorStoreSortOrder::Descending => "desc"@,
            VectorStoreSortOrder::Unknown(s) => s@,
        }
    }

    /// Whether `value` is one of the wire values this crate knows.
    pub open spec fn is_known_wire(value: Seq<char>) -> bool {
        value == "asc"@ || value == "desc"@
    }

    /// Parses a wire value while retaining unknown strings verbatim.
    pub fn from_raw(value: &str) -> (r: Self)
        ensures
            r.wire() == value@,
            (r is Unknown) == !Self::is_known_wire(value@),
    {
        if chars_eq(value, "asc") {
            VectorStoreSortOrder::Ascending
        } else if chars_eq(value, "desc") {
            VectorStoreSortOrder::Descending
        } else {
            VectorStoreSortOrder::Unknown(value.to_owned())
        }
    }

    /// The exact string used on the wire.
    pub fn as_str(&self) -> (r: &str)
        ensures
            r@ == self.wire(),
    {
        match self {
            VectorStoreSortOrder::Ascending => "asc",
            VectorStoreSortOrder::Descending => "desc",
            VectorStoreSortOrder::Unknown(s) => s.as_str(),
        }
    }

    /// Whether this crate knows the wire value.
    pub fn is_known(&self) -> (r: bool)
        ensures
            r == !(self is Unknown),
    {
        match self {
            VectorStoreSortOrder::Unknown(_) => false,
            _ => true,
        }
    }

    /// The raw value, only when it is unknown to this crate.
    pub fn unknown_value(&self) -> (r: Option<&str>)
        ensures
            match self {
                VectorStoreSortOrder::Unknown(s) => r matches Some(x) && x@ == s@,
                _ => r is None,
            },
    {
        match self {
            VectorStoreSortOrder::Unknown(s) => Some(s.as_str()),
            _ => None,
        }
    }
}

/// Expiration anchor of vector stores.
#[derive(Debug)]
pub enum VectorStoreExpirationAnchor {
    /// `last_active_at`.
    LastActiveAt,
    /// A value added by the service after this crate was released.
    Unknown(String),
}

impl Clone for VectorStoreExpirationAnchor {
    /// An equal copy of the anchor.
    fn clone(&self) -> (r: Self)
        ensures
            r == *self,
    {
        match self {
            VectorStoreExpirationAnchor::LastActiveAt => VectorStoreExpirationAnchor::LastActiveAt,
            VectorStoreExpirationAnchor::Unknown(s) => VectorStoreExpirationAnchor::Unknown(s.clone()),
        }
    }
}

/// Each variant of [`VectorStoreExpirationAnchor`] stands for the wire value the API pairs
/// with it, and those values are exactly the ones known.
pub proof fn law_vector_store_expiration_anchor_wire_values(value: Seq<char>)
    ensures
        VectorStoreExpirationAnchor::LastActiveAt.wire() == "last_active_at"@,
        VectorStoreExpirationAnchor::is_known_wire(value) <==> (value == "last_active_at"@),
{
}

impl VectorStoreExpirationAnchor {
    /// The exact string used on the wire.
    pub open spec fn wire(&self) -> Seq<char> {
        match self {
            VectorStoreExpirationAnchor::LastActiveAt => "last_active_at"@,
            VectorStoreExpirationAnchor::Unknown(s) => s@,
        }
    }

    /// Whether `value` is one of the wire values this crate knows.
    pub open spec fn is_known_wire(value: Seq<char>) -> bool {
        value == "last_active_at"@
    }

    /// Parses a wire value while retaining unknown strings verbatim.
    pub fn from_raw(value: &str) -> (r: Self)
        ensures
            r.wire() == value@,
            (r is Unknown) == !Self::is_known_wire(value@),
    {
        if chars_eq(value, "last_active_at") {
            VectorStoreExpirationAnchor::LastActiveAt
        } else {
            VectorStoreExpirationAnchor::Unknown(value.to_owned())
        }
    }

    /// The exact string used on the wire.
    pub fn as_str(&self) -> (r: &str)
        ensures
            r@ == self.wire(),
    {
        match self {
            VectorStoreExpirationAnchor::LastActiveAt => "last_active_at",
            VectorStoreExpirationAnchor::Unknown(s) => s.as_str(),
        }
    }

    /// Whether this crate knows the wire value.
    pub fn is_known(&self) -> (r: bool)
        ensures
            r == !(self is Unknown),
    {
        match self {
            VectorStoreExpirationAnchor::Unknown(_) => false,
            _ => true,
        }
    }

    /// The raw value, only when it is unknown to this crate.
    pub fn unknown_value(&self) -> (r: Option<&str>)
        ensures
            match self {
                VectorStoreExpirationAnchor::Unknown(s) => r matches Some(x) && x@ == s@,
                _ => r is None,
            },
    {
        match self {
            VectorStoreExpirationAnchor::Unknown(s) => Some(s.as_str()),
            _ => None,
        }
    }
}

/// Comparison operation of an attribute filter.
#[derive(Debug, Clone)]
pub enum VectorStoreComparisonOperator {
    /// `eq`.
    Equal,
    /// `ne`.
    NotEqual,
    /// `gt`.
    GreaterThan,
    /// `gte`.
    GreaterThanOrEqual,
    /// `lt`.
    LessThan,
    /// `lte`.
    LessThanOrEqual,
    /// `in`.
    In,
    /// `nin`.
    NotIn,
    /// A value added by the service after this crate was released.
    Unknown(String),
}

/// Each variant of [`VectorStoreComparisonOperator`] stands for the wire value the API pairs
/// with it, and those values are exactly the ones known.
pub proof fn law_vector_store_comparison_operator_wire_values(value: Seq<char>)
    ensures
        VectorStoreComparisonOperator::Equal.wire() == "eq"@,
        VectorStoreComparisonOperator::NotEqual.wire() == "ne"@,
        VectorStoreComparisonOperator::GreaterThan.wire() == "gt"@,
        VectorStoreComparisonOperator::GreaterThanOrEqual.wire() == "gte"@,
        VectorStoreComparisonOperator::LessThan.wire() == "lt"@,
        VectorStoreComparisonOperator::LessThanOrEqual.wire() == "lte"@,
        VectorStoreComparisonOperator::In.wire() == "in"@,
        VectorStoreComparisonOperator::NotIn.wire() == "nin"@,
        VectorStoreComparisonOperator::is_known_wire(value) <==> (value == "eq"@ || value == "ne"@ || value == "gt"@ || value == "gte"@ || value == "lt"@ || value == "lte"@ || value == "in"@ || value == "nin"@),
{
}

impl VectorStoreComparisonOperator {
    /// The exact string used on the wire.
    pub open spec fn wire(&self) -> Seq<char> {
        match self {
            VectorStoreComparisonOperator::Equal => "eq"@,
            VectorStoreComparisonOperator::NotEqual => "ne"@,
            VectorStoreComparisonOperator::GreaterThan => "gt"@,
            VectorStoreComparisonOperator::GreaterThanOrEqual => "gte"@,
            VectorStoreComparisonOperator::LessThan => "lt"@,
            VectorStoreComparisonOperator::LessThanOrEqual => "lte"@,
            VectorStoreComparisonOperator::In => "in"@,
            VectorStoreComparisonOperator::NotIn => "nin"@,
            VectorStoreComparisonOperator::Unknown(s) => s@,
        }
    }

    /// Whether `value` is one of the wire values this crate knows.
    pub open spec fn is_known_wire(value: Seq<char>) -> bool {
        value == "eq"@ || value == "ne"@ || value == "gt"@ || value == "gte"@ || value == "lt"@ || value == "lte"@ || value == "in"@ || value == "nin"@
    }

    /// Parses a wire value while retaining unknown strings verbatim.
    pub fn from_raw(value: &str) -> (r: Self)
        ensures
            r.wire() == value@,
            (r is Unknown) == !Self::is_known_wire(value@),
    {
        if chars_eq(value, "eq") {
            VectorStoreComparisonOperator::Equal
        } else if chars_eq(value, "ne") {
            VectorStoreComparisonOperator::NotEqual
        } else if chars_eq(value, "gt") {
            VectorStoreComparisonOperator::GreaterThan
        } else if chars_eq(value, "gte") {
            VectorStoreComparisonOperator::GreaterThanOrEqual
        } else if chars_eq(value, "lt") {
            VectorStoreComparisonOperator::LessThan
        } else if chars_eq(value, "lte") {
            VectorStoreComparisonOperator::LessThanOrEqual
        } else if chars_eq(value, "in") {
            VectorStoreComparisonOperator::In
        } else if chars_eq(value, "nin") {
            VectorStoreComparisonOperator::NotIn
        } else {
            VectorStoreComparisonOperator::Unknown(value.to_owned())
        }
    }

    /// The exact string used on the wire.
    pub fn as_str(&self) -> (r: &str)
        ensures
            r@ == self.wire(),
    {
        match self {
            VectorStoreComparisonOperator::Equal => "eq",
            VectorStoreComparisonOperator::NotEqual => "ne",
            VectorStoreComparisonOperator::GreaterThan => "gt",
            VectorStoreComparisonOperator::GreaterThanOrEqual => "gte",
            VectorStoreComparisonOperator::LessThan => "lt",
            VectorStoreComparisonOperator::LessThanOrEqual => "lte",
            VectorStoreComparisonOperator::In => "in",
            VectorStoreComparisonOperator::NotIn => "nin",
            VectorStoreComparisonOperator::Unknown(s) => s.as_str(),
        }
    }

    /// Whether this crate knows the wire value.
    pub fn is_known(&self) -> (r: bool)
        ensures
            r == !(self is Unknown),
    {
        match self {
            VectorStoreComparisonOperator::Unknown(_) => false,
            _ => true,
        }
    }

    /// The raw value, only when it is unknown to this crate.
    pub fn unknown_value(&self) -> (r: Option<&str>)
        ensures
            match self {
                VectorStoreComparisonOperator::Unknown(s) => r matches Some(x) && x@ == s@,
                _ => r is None,
            },
    {
        match self {
            VectorStoreComparisonOperator::Unknown(s) => Some(s.as_str()),
            _ => None,
        }
    }
}

/// Boolean operation of a filter group.
#[derive(Debug, Clone)]
pub enum VectorStoreCompoundOperator {
    /// `and`.
    And,
    /// `or`.
    Or,
    /// A value added by the service after this crate was released.
    Unknown(String),
}

/// Each variant of [`VectorStoreCompoundOperator`] stands for the wire value the API pairs
/// with it, and those values are exactly the ones known.
pub proof fn law_vector_store_compound_operator_wire_values(value: Seq<char>)
    ensures
        VectorStoreCompoundOperator::And.wire() == "and"@,
        VectorStoreCompoundOperator::Or.wire() == "or"@,
        VectorStoreCompoundOperator::is_known_wire(value) <==> (value == "and"@ || value == "or"@),
{
}

impl VectorStoreCompoundOperator {
    /// The exact string used on the wire.
    pub open spec fn wire(&self) -> Seq<char> {
        match self {
            VectorStoreCompoundOperator::And => "and"@,
            VectorStoreCompoundOperator::Or => "or"@,
            VectorStoreCompoundOperator::Unknown(s) => s@,
        }
    }

    /// Whether `value` is one of the wire values this crate knows.
    pub open spec fn is_known_wire(value: Seq<char>) -> bool {
        value == "and"@ || value == "or"@
    }

    /// Parses a wire value while retaining unknown strings verbatim.
    pub fn from_raw(value: &str) -> (r: Self)
        ensures
            r.wire() == value@,
            (r is Unknown) == !Self::is_known_wire(value@),
    {
        if chars_eq(value, "and") {
            VectorStoreCompoundOperator::And
        } else if chars_eq(value, "or") {
            VectorStoreCompoundOperator::Or
        } else {
            VectorStoreCompoundOperator::Unknown(value.to_owned())
        }
    }

    /// The exact string used on the wire.
    pub fn as_str(&self) -> (r: &str)
        ensures
            r@ == self.wire(),
    {
        match self {
            VectorStoreCompoundOperator::And => "and",
            VectorStoreCompoundOperator::Or => "or",
            VectorStoreCompoundOperator::Unknown(s) => s.as_str(),
        }
    }

    /// Whether this crate knows the wire value.
    pub fn is_known(&self) -> (r: bool)
        ensures
            r == !(self is Unknown),
    {
        match self {
            VectorStoreCompoundOperator::Unknown(_) => false,
            _ => true,
        }
    }

    /// The raw value, only when it is unknown to this crate.
    pub fn unknown_value(&self) -> (r: Option<&str>)
        ensures
            match self {
                VectorStoreCompoundOperator::Unknown(s) => r matches Some(x) && x@ == s@,
                _ => r is None,
            },
    {
        match self {
            VectorStoreCompoundOperator::Unknown(s) => Some(s.as_str()),
            _ => None,
        }
    }
}

/// Ranker of vector-store search.
#[derive(Debug, Clone)]
pub enum VectorStoreRanker {
    /// `none`.
    NoRanker,
    /// `auto`.
    Auto,
    /// `default-2024-11-15`.
    Default2024_11_15,
    /// A value added by the service after this crate was released.
    Unknown(String),
}

/// Each variant of [`VectorStoreRanker`] stands for the wire value the API pairs
/// with it, and those values are exactly the ones known.
pub proof fn law_vector_store_ranker_wire_values(value: Seq<char>)
    ensures
        VectorStoreRanker::NoRanker.wire() == "none"@,
        VectorStoreRanker::Auto.wire() == "auto"@,
        VectorStoreRanker::Default2024_11_15.wire() == "default-2024-11-15"@,
        VectorStoreRanker::is_known_wire(value) <==> (value == "none"@ || value == "auto"@ || value == "default-2024-11-15"@),
{
}

impl VectorStoreRanker {
    /// The exact string used on the wire.
    pub open spec fn wire(&self) -> Seq<char> {
        match self {
            VectorStoreRanker::NoRanker => "none"@,
            VectorStoreRanker::Auto => "auto"@,
            VectorStoreRanker::Default2024_11_15 => "default-2024-11-15"@,
            VectorStoreRanker::Unknown(s) => s@,
        }
    }

    /// Whether `value` is one of the wire values this crate knows.
    pub open spec fn is_known_wire(value: Seq<char>) -> bool {
        value == "none"@ || value == "auto"@ || value == "default-2024-11-15"@
    }

    /// Parses a wire value while retaining unknown strings verbatim.
    pub fn from_raw(value: &str) -> (r: Self)
        ensures
            r.wire() == value@,
            (r is Unknown) == !Self::is_known_wire(value@),
    {
        if chars_eq(value, "none") {
            VectorStoreRanker::NoRanker
        } else if chars_eq(value, "auto") {
            VectorStoreRanker::Auto
        } else if chars_eq(value, "default-2024-11-15") {
            VectorStoreRanker::Default2024_11_15
        } else {
            VectorStoreRanker::Unknown(value.to_owned())
        }
    }

    /// The exact string used on the wire.
    pub fn as_str(&self) -> (r: &str)
        ensures
            r@ == self.wire(),
    {
        match self {
            VectorStoreRanker::NoRanker => "none",
            VectorStoreRanker::Auto => "auto",
            VectorStoreRanker::Default2024_11_15 => "default-2024-11-15",
            VectorStoreRanker::Unknown(s) => s.as_str(),
        }
    }

    /// Whether this crate knows the wire value.
    pub fn is_known(&self) -> (r: bool)
        ensures
            r == !(self is Unknown),
    {
        match self {
            VectorStoreRanker::Unknown(_) => false,
            _ => true,
        }
    }

    /// The raw value, only when it is unknown to this crate.
    pub fn unknown_value(&self) -> (r: Option<&str>)
        ensures
            match self {
                VectorStoreRanker::Unknown(s) => r matches Some(x) && x@ == s@,
                _ => r is None,
            },
    {
        match self {
            VectorStoreRanker::Unknown(s) => Some(s.as_str()),
            _ => None,
        }
    }
}

/// Content kind of vector-store content endpoints.
#[derive(Debug, Clone)]
pub enum VectorStoreContentType {
    /// `text`.
    Text,
    /// A value added by the service after this crate was released.
    Unknown(String),
}

/// Each variant of [`VectorStoreContentType`] stands for the wire value the API pairs
/// with it, and those values are exactly the ones known.
pub proof fn law_vector_store_content_type_wire_values(value: Seq<char>)
    ensures
        VectorStoreContentType::Text.wire() == "text"@,
        VectorStoreContentType::is_known_wire(value) <==> (value == "text"@),
{
}

impl VectorStoreContentType {
    /// The exact string used on the wire.
    pub open spec fn wire(&self) -> Seq<char> {
        match self {
            VectorStoreContentType::Text => "text"@,
            VectorStoreContentType::Unknown(s) => s@,
        }
    }

    /// Whether `value` is one of the wire values this crate knows.
    pub open spec fn is_known_wire(value: Seq<char>) -> bool {
        value == "text"@
    }

    /// Parses a wire value while retaining unknown strings verbatim.
    pub fn from_raw(value: &str) -> (r: Self)
        ensures
            r.wire() == value@,
            (r is Unknown) == !Self::is_known_wire(value@),
    {
        if chars_eq(value, "text") {
            VectorStoreContentType::Text
        } else {
            VectorStoreContentType::Unknown(value.to_owned())
        }
    }

    /// The exact string used on the wire.
    pub fn as_str(&self) -> (r: &str)
        ensures
            r@ == self.wire(),
    {
        match self {
            VectorStoreContentType::Text => "text",
            VectorStoreContentType::Unknown(s) => s.as_str(),
        }
    }

    /// Whether this crate knows the wire value.
    pub fn is_known(&self) -> (r: bool)
        ensures
            r == !(self is Unknown),
    {
        match self {
            VectorStoreContentType::Unknown(_) => false,
            _ => true,
        }
    }

    /// The raw value, only when it is unknown to this crate.
    pub fn unknown_value(&self) -> (r: Option<&str>)
        ensures
            match self {
                VectorStoreContentType::Unknown(s) => r matches Some(x) && x@ == s@,
                _ => r is None,
            },
    {
        match self {
            VectorStoreContentType::Unknown(s) => Some(s.as_str()),
            _ => None,
        }
    }
}

/// Maximum number of metadata or attribute pairs.
pub const MAX_VECTOR_STORE_PROPERTIES: usize = 16;
/// Maximum key length in Unicode scalar values.
pub const MAX_VECTOR_STORE_KEY_CHARS: usize = 64;
/// Maximum string value length in Unicode scalar values.
pub const MAX_VECTOR_STORE_VALUE_CHARS: usize = 512;
/// Maximum initial file count of vector-store creation.
pub const MAX_VECTOR_STORE_INITIAL_FILES: usize = 500;
/// Maximum number of files of a file-batch request.
pub const MAX_VECTOR_STORE_BATCH_FILES: usize = 2000;
/// Minimum static chunk size.
pub const MIN_STATIC_CHUNK_TOKENS: u32 = 100;
/// Maximum static chunk size.
pub const MAX_STATIC_CHUNK_TOKENS: u32 = 4096;
/// Minimum expiration period in days.
pub const MIN_VECTOR_STORE_EXPIRATION_DAYS: u16 = 1;
/// Maximum expiration period in days.
pub const MAX_VECTOR_STORE_EXPIRATION_DAYS: u16 = 365;
/// Page size when `limit` is omitted; the list schemas set no maximum.
pub const DEFAULT_VECTOR_STORE_LIST_LIMIT: u32 = 20;
/// Default number of vector search results.
pub const DEFAULT_VECTOR_STORE_SEARCH_RESULTS: u8 = 10;
/// Maximum vector search result count.
pub const MAX_VECTOR_STORE_SEARCH_RESULTS: u8 = 50;

/// Validation error of vector-store request values.
#[derive(Debug, Clone, PartialEq, Eq)]
pub enum VectorStoreValidationError {
    /// A map holds too many pairs.
    TooManyProperties { actual: usize, maximum: usize },
    /// An attribute or metadata key is too long.
    KeyTooLong { actual: usize, maximum: usize },
    /// A string attribute or metadata value is too long.
    ValueTooLong { actual: usize, maximum: usize },
    /// Too many initial files.
    TooManyInitialFiles { actual: usize, maximum: usize },
    /// A file-batch size outside `1..=2000`.
    InvalidBatchFileCount { actual: usize, maximum: usize },
    /// Both or neither file-batch input alternatives were given.
    InvalidBatchInputChoice,
    /// Global fields were combined with the per-file form of a file batch.
    GlobalFieldsWithPerFileBatch,
    /// An expiration period outside `1..=365` days.
    InvalidExpirationDays { days: u16 },
    /// A static chunk size outside `100..=4096`.
    InvalidChunkSize { tokens: u32 },
    /// A chunk overlap above half the maximum chunk size.
    InvalidChunkOverlap { overlap: u32, maximum: u32 },
    /// A page size below 1.
    InvalidListLimit { limit: u32 },
    /// An empty search query array.
    EmptySearchQueries,
    /// A search result count outside `1..=50`.
    InvalidMaxResults { actual: u8 },
    /// A score that is not finite or outside `[0, 1]`, as text.
    InvalidScore { score: String },
    /// A number that JSON cannot represent.
    NonFiniteNumber,
}

/// The error of a key longer than 64 characters, if it is.
pub open spec fn key_error(key: Seq<char>) -> Option<VectorStoreValidationError> {
    if key.len() > MAX_VECTOR_STORE_KEY_CHARS {
        Some(
            VectorStoreValidationError::KeyTooLong {
                actual: key.len() as usize,
                maximum: MAX_VECTOR_STORE_KEY_CHARS,
            },
        )
    } else {
        None
    }
}

/// The error of a string value longer than 512 characters, if it is.
pub open spec fn value_error(value: Seq<char>) -> Option<VectorStoreValidationError> {
    if value.len() > MAX_VECTOR_STORE_VALUE_CHARS {
        Some(
            VectorStoreValidationError::ValueTooLong {
                actual: value.len() as usize,
                maximum: MAX_VECTOR_STORE_VALUE_CHARS,
            },
        )
    } else {
        None
    }
}

pub(crate) fn validate_map_key(key: &str) -> (r: Result<(), VectorStoreValidationError>)
    ensures
        match key_error(key@) {
            Some(e) => r == Err::<(), VectorStoreValidationError>(e),
            None => r is Ok,
        },
{
    let actual = key.unicode_len();
    if actual > MAX_VECTOR_STORE_KEY_CHARS {
        return Err(
            VectorStoreValidationError::KeyTooLong { actual, maximum: MAX_VECTOR_STORE_KEY_CHARS },
        );
    }
    Ok(())
}

pub(crate) fn validate_string_value(value: &str) -> (r: Result<(), VectorStoreValidationError>)
    ensures
        match value_error(value@) {
            Some(e) => r == Err::<(), VectorStoreValidationError>(e),
            None => r is Ok,
        },
{
    let actual = value.unicode_len();
    if actual > MAX_VECTOR_STORE_VALUE_CHARS {
        return Err(
            VectorStoreValidationError::ValueTooLong { actual, maximum: MAX_VECTOR_STORE_VALUE_CHARS },
        );
    }
    Ok(())
}

/// The first pair, in key order, whose key or value is too long.
pub open spec fn first_invalid_pair(e: Seq<(Seq<char>, Seq<char>)>) -> Option<VectorStoreValidationError>
    decreases e.len(),
{
    if e.len() == 0 {
        None
    } else if key_error(e[0].0) is Some {
        key_error(e[0].0)
    } else if value_error(e[0].1) is Some {
        value_error(e[0].1)
    } else {
        first_invalid_pair(e.drop_first())
    }
}

/// The documented limits of a metadata map: at most 16 pairs, then every
/// key and value short enough.
pub open spec fn metadata_check(e: Seq<(Seq<char>, Seq<char>)>) -> Result<(), VectorStoreValidationError> {
    if e.len() > MAX_VECTOR_STORE_PROPERTIES {
        Err(
            VectorStoreValidationError::TooManyProperties {
                actual: e.len() as usize,
                maximum: MAX_VECTOR_STORE_PROPERTIES,
            },
        )
    } else {
        match first_invalid_pair(e) {
            Some(err) => Err(err),
            None => Ok(()),
        }
    }
}

/// Whether the pair at `i` has a key of at most 64 characters and a value of
/// at most 512.
pub open spec fn metadata_pair_within_limits(e: Seq<(Seq<char>, Seq<char>)>, i: int) -> bool {
    e[i].0.len() <= MAX_VECTOR_STORE_KEY_CHARS && e[i].1.len() <= MAX_VECTOR_STORE_VALUE_CHARS
}

/// The refusal of the pair at `i`: its key if that is too long, else its
/// value.
pub open spec fn metadata_pair_refusal(e: Seq<(Seq<char>, Seq<char>)>, i: int) -> VectorStoreValidationError {
    if e[i].0.len() > MAX_VECTOR_STORE_KEY_CHARS {
        VectorStoreValidationError::KeyTooLong {
            actual: e[i].0.len() as usize,
            maximum: MAX_VECTOR_STORE_KEY_CHARS,
        }
    } else {
        VectorStoreValidationError::ValueTooLong {
            actual: e[i].1.len() as usize,
            maximum: MAX_VECTOR_STORE_VALUE_CHARS,
        }
    }
}

proof fn lemma_first_invalid_pair(e: Seq<(Seq<char>, Seq<char>)>)
    ensures
        first_invalid_pair(e) is None <==> forall|i: int| 0 <= i < e.len() ==> #[trigger] metadata_pair_within_limits(e, i),
        first_invalid_pair(e) is Some ==> exists|i: int|
            0 <= i < e.len() && !metadata_pair_within_limits(e, i) && (forall|j: int|
                0 <= j < i ==> #[trigger] metadata_pair_within_limits(e, j)) && first_invalid_pair(e) == Some(
                #[trigger] metadata_pair_refusal(e, i),
            ),
    decreases e.len(),
{
    if e.len() > 0 {
        let t = e.drop_first();
        lemma_first_invalid_pair(t);
        assert forall|i: int| 0 <= i < t.len() implies (metadata_pair_within_limits(t, i) == #[trigger] metadata_pair_within_limits(e, i + 1)
            && metadata_pair_refusal(t, i) == metadata_pair_refusal(e, i + 1)) by {
            assert(t[i] == e[i + 1]);
        }
        if metadata_pair_within_limits(e, 0) {
            if first_invalid_pair(t) is None {
                assert forall|i: int| 0 <= i < e.len() implies #[trigger] metadata_pair_within_limits(e, i) by {
                    if i > 0 {
                        assert(metadata_pair_within_limits(t, i - 1));
                    }
                }
            } else {
                let k = choose|i: int|
                    0 <= i < t.len() && !metadata_pair_within_limits(t, i) && (forall|j: int|
                        0 <= j < i ==> #[trigger] metadata_pair_within_limits(t, j)) && first_invalid_pair(t) == Some(
                        #[trigger] metadata_pair_refusal(t, i),
                    );
                assert(metadata_pair_within_limits(t, k) == metadata_pair_within_limits(e, k + 1));
                assert forall|j: int| 0 <= j < k + 1 implies #[trigger] metadata_pair_within_limits(e, j) by {
                    if j > 0 {
                        assert(metadata_pair_within_limits(t, j - 1));
                    }
                }
                assert(!metadata_pair_within_limits(e, k + 1));
            }
        } else {
            assert(!metadata_pair_within_limits(e, 0));
            assert(first_invalid_pair(e) == Some(metadata_pair_refusal(e, 0)));
        }
    }
}

/// Metadata passes validation exactly when it holds at most 16 pairs and
/// every pair, whatever its position, has a key of at most 64 characters and
/// a value of at most 512.  A refusal of a map of at most 16 pairs names the
/// first pair over a limit: its key if that is too long, else its value.
pub proof fn law_metadata_check_examines_every_pair(e: Seq<(Seq<char>, Seq<char>)>)
    ensures
        metadata_check(e) is Ok <==> (e.len() <= MAX_VECTOR_STORE_PROPERTIES && forall|i: int|
            0 <= i < e.len() ==> (#[trigger] e[i]).0.len() <= MAX_VECTOR_STORE_KEY_CHARS && e[i].1.len()
                <= MAX_VECTOR_STORE_VALUE_CHARS),
        e.len() <= MAX_VECTOR_STORE_PROPERTIES && metadata_check(e) is Err ==> exists|i: int|
            0 <= i < e.len() && !metadata_pair_within_limits(e, i) && (forall|j: int|
                0 <= j < i ==> #[trigger] metadata_pair_within_limits(e, j))
                && metadata_check(e) == Err::<(), VectorStoreValidationError>(#[trigger] metadata_pair_refusal(e, i)),
{
    lemma_first_invalid_pair(e);
    assert(forall|i: int| 0 <= i < e.len() ==> (metadata_pair_within_limits(e, i) <==> ((#[trigger] e[i]).0.len()
        <= MAX_VECTOR_STORE_KEY_CHARS && e[i].1.len() <= MAX_VECTOR_STORE_VALUE_CHARS)));
}

/// The size a map of `n` pairs would reach with one more key, as reported
/// in a refusal (saturated at `usize::MAX`).
pub open spec fn grown_count(n: nat) -> usize {
    if n + 1 > usize::MAX {
        usize::MAX
    } else {
        (n + 1) as usize
    }
}

/// Why inserting `key: value` into `e` is refused, if it is: a long key, a
/// long value, or a new key when 16 or more pairs are already held (a
/// decoded map may hold more).
pub open spec fn metadata_insert_error(
    e: Seq<(Seq<char>, Seq<char>)>,
    key: Seq<char>,
    value: Seq<char>,
) -> Option<VectorStoreValidationError> {
    if key_error(key) is Some {
        key_error(key)
    } else if value_error(value) is Some {
        value_error(value)
    } else if entry_get(e, key) is None && e.len() >= MAX_VECTOR_STORE_PROPERTIES {
        Some(
            VectorStoreValidationError::TooManyProperties {
                actual: grown_count(e.len()),
                maximum: MAX_VECTOR_STORE_PROPERTIES,
            },
        )
    } else {
        None
    }
}

/// Stores each pair in turn, a later pair replacing an earlier one with the
/// same key.
pub open spec fn insert_all(acc: Seq<(Seq<char>, Seq<char>)>, pairs: Seq<(Seq<char>, Seq<char>)>) -> Seq<
    (Seq<char>, Seq<char>),
>
    decreases pairs.len(),
{
    if pairs.len() == 0 {
        acc
    } else {
        insert_all(entry_insert(acc, pairs[0].0, pairs[0].1), pairs.drop_first())
    }
}

/// String metadata of a vector store, kept in key order, each key once.
#[derive(Debug)]
pub struct VectorStoreMetadata {
    entries: Vec<(String, String)>,
}

/// The pairs of stored strings, as character sequences.
pub open spec fn metadata_pairs(entries: Seq<(String, String)>) -> Seq<(Seq<char>, Seq<char>)> {
    entries.map_values(|p: (String, String)| (p.0@, p.1@))
}

impl View for VectorStoreMetadata {
    type V = Seq<(Seq<char>, Seq<char>)>;

    closed spec fn view(&self) -> Seq<(Seq<char>, Seq<char>)> {
        metadata_pairs(self.entries@)
    }
}

proof fn lemma_skip_ordered(e: Seq<(Seq<char>, Seq<char>)>, i: int)
    requires
        keys_ordered(e),
        0 <= i <= e.len(),
    ensures
        keys_ordered(e.skip(i)),
{
    let s = e.skip(i);
    assert forall|a: int, b: int| 0 <= a < b < s.len() implies chars_lt(
        #[trigger] s[a].0,
        #[trigger] s[b].0,
    ) by {
        assert(s[a] == e[a + i] && s[b] == e[b + i]);
    }
}

proof fn lemma_get_below_first(e: Seq<(Seq<char>, Seq<char>)>, key: Seq<char>)
    requires
        keys_ordered(e),
        e.len() > 0,
        chars_lt(key, e[0].0),
    ensures
        entry_get(e, key) is None,
{
    lemma_insert_len(e, key, seq![]);
    lemma_chars_lt_irreflexive(key);
    assert(e[0].0 != key);
    assert(!(e[0].0 != key && !chars_lt(key, e[0].0)));
    assert(entry_insert(e, key, seq![]) == seq![(key, Seq::<char>::empty())] + e);
}

/// Stores a pair without checking the limits; returns the replaced value.
fn metadata_pairs_insert(entries: &mut Vec<(String, String)>, key: String, value: String) -> (prev: Option<
    String,
>)
    requires
        keys_ordered(metadata_pairs(old(entries)@)),
    ensures
        metadata_pairs(final(entries)@) == entry_insert(metadata_pairs(old(entries)@), key@, value@),
        keys_ordered(metadata_pairs(final(entries)@)),
        match prev {
            Some(p) => entry_get(metadata_pairs(old(entries)@), key@) == Some(p@),
            None => entry_get(metadata_pairs(old(entries)@), key@) is None,
        },
{
    proof {
        lemma_insert_keeps_order(metadata_pairs(entries@), key@, value@);
    }
    let n = entries.len();
    let mut i: usize = 0;
    assert(metadata_pairs(entries@).skip(0) =~= metadata_pairs(entries@));
    assert(metadata_pairs(entries@).take(0) + metadata_pairs(entries@) =~= metadata_pairs(entries@));
    while i < n
        invariant
            n == entries@.len(),
            n == metadata_pairs(entries@).len(),
            i <= n,
            metadata_pairs(entries@) == metadata_pairs(old(entries)@),
            keys_ordered(metadata_pairs(entries@)),
            keys_ordered(entry_insert(metadata_pairs(entries@), key@, value@)),
            entry_get(metadata_pairs(entries@), key@) == entry_get(metadata_pairs(entries@).skip(i as int), key@),
            entry_insert(metadata_pairs(entries@), key@, value@) == metadata_pairs(entries@).take(i as int) + entry_insert(
                metadata_pairs(entries@).skip(i as int),
                key@,
                value@,
            ),
        decreases n - i,
    {
        let ghost rest = metadata_pairs(entries@).skip(i as int);
        assert(rest[0] == metadata_pairs(entries@)[i as int]);
        assert(rest.drop_first() =~= metadata_pairs(entries@).skip(i + 1));
        let k = &entries[i].0;
        if chars_eq(k.as_str(), key.as_str()) {
            let ghost before = metadata_pairs(entries@);
            let (_, old_value) = entries.remove(i);
            entries.insert(i, (key, value));
            proof {
                assert(metadata_pairs(entries@) =~= before.take(i as int) + entry_insert(rest, key@, value@));
            }
            return Some(old_value);
        }
        if str_lt(key.as_str(), k.as_str()) {
            let ghost before = metadata_pairs(entries@);
            proof {
                lemma_skip_ordered(before, i as int);
                lemma_get_below_first(rest, key@);
            }
            entries.insert(i, (key, value));
            proof {
                assert(metadata_pairs(entries@) =~= before.take(i as int) + entry_insert(rest, key@, value@));
            }
            return None;
        }
        proof {
            assert(metadata_pairs(entries@).take(i as int) + entry_insert(rest, key@, value@) =~= metadata_pairs(entries@).take(i + 1)
                + entry_insert(metadata_pairs(entries@).skip(i + 1), key@, value@));
        }
        i = i + 1;
    }
    let ghost before = metadata_pairs(entries@);
    entries.push((key, value));
    proof {
        assert(before.skip(n as int) =~= Seq::<(Seq<char>, Seq<char>)>::empty());
        assert(before.take(n as int) =~= before);
        assert(metadata_pairs(entries@) =~= before.take(n as int) + entry_insert(
            before.skip(n as int),
            key@,
            value@,
        ));
    }
    None
}

impl VectorStoreMetadata {
    /// Each key occurs once and the pairs are in key order.
    #[verifier::type_invariant]
    spec fn inv(&self) -> bool {
        keys_ordered(self@)
    }

    /// An empty map.
    pub fn new() -> (r: Self)
        ensures
            r@ == Seq::<(Seq<char>, Seq<char>)>::empty(),
    {
        let r = VectorStoreMetadata { entries: Vec::new() };
        assert(r@ =~= Seq::<(Seq<char>, Seq<char>)>::empty());
        r
    }

    /// Number of pairs.
    pub fn len(&self) -> (r: usize)
        ensures
            r == self@.len(),
    {
        self.entries.len()
    }

    /// Whether the map is empty.
    pub fn is_empty(&self) -> (r: bool)
        ensures
            r == (self@.len() == 0),
    {
        self.entries.len() == 0
    }

    /// The pairs in key order.
    pub fn iter(&self) -> (r: Vec<(&str, &str)>)
        ensures
            r@.len() == self@.len(),
            forall|i: int| 0 <= i < r@.len() ==> (#[trigger] r@[i]).0@ == self@[i].0 && r@[i].1@ == self@[i].1,
    {
        let n = self.entries.len();
        let mut out: Vec<(&str, &str)> = Vec::new();
        let mut i: usize = 0;
        while i < n
            invariant
                n == self.entries@.len(),
                i <= n,
                out@.len() == i,
                forall|j: int| 0 <= j < i ==> (#[trigger] out@[j]).0@ == self@[j].0 && out@[j].1@ == self@[j].1,
            decreases n - i,
        {
            out.push((self.entries[i].0.as_str(), self.entries[i].1.as_str()));
            i = i + 1;
        }
        out
    }

    /// Whether `key` is stored.
    fn contains(&self, key: &str) -> (r: bool)
        ensures
            r == (entry_get(self@, key@) is Some),
    {
        let n = self.entries.len();
        let mut i: usize = 0;
        assert(self@.skip(0) =~= self@);
        while i < n
            invariant
                n == self.entries@.len(),
                n == self@.len(),
                i <= n,
                entry_get(self@, key@) == entry_get(self@.skip(i as int), key@),
            decreases n - i,
        {
            assert(self@.skip(i as int)[0] == self@[i as int]);
            assert(self@.skip(i as int).drop_first() =~= self@.skip(i + 1));
            if chars_eq(self.entries[i].0.as_str(), key) {
                return true;
            }
            i = i + 1;
        }
        false
    }

    /// Inserts one pair after checking the limits; returns the replaced value.
    pub fn insert(&mut self, key: &str, value: &str) -> (r: Result<Option<String>, VectorStoreValidationError>)
        ensures
            match metadata_insert_error(old(self)@, key@, value@) {
                Some(err) => r == Err::<Option<String>, VectorStoreValidationError>(err) && final(self)@
                    == old(self)@,
                None => final(self)@ == entry_insert(old(self)@, key@, value@) && match r {
                    Ok(Some(p)) => entry_get(old(self)@, key@) == Some(p@),
                    Ok(None) => entry_get(old(self)@, key@) is None,
                    Err(_) => false,
                },
            },
    {
        match validate_map_key(key) {
            Ok(()) => {},
            Err(e) => {
                return Err(e);
            },
        }
        match validate_string_value(value) {
            Ok(()) => {},
            Err(e) => {
                return Err(e);
            },
        }
        if !self.contains(key) && self.entries.len() >= MAX_VECTOR_STORE_PROPERTIES {
            return Err(
                VectorStoreValidationError::TooManyProperties {
                    actual: self.entries.len().saturating_add(1),
                    maximum: MAX_VECTOR_STORE_PROPERTIES,
                },
            );
        }
        proof {
            use_type_invariant(&*self);
        }
        let mut entries: Vec<(String, String)> = Vec::new();
        std::mem::swap(&mut entries, &mut self.entries);
        let prev = metadata_pairs_insert(&mut entries, key.to_owned(), value.to_owned());
        self.entries = entries;
        Ok(prev)
    }

    /// Checks the documented limits without changing the map.
    pub fn validate(&self) -> (r: Result<(), VectorStoreValidationError>)
        ensures
            r == metadata_check(self@),
    {
        let n = self.entries.len();
        if n > MAX_VECTOR_STORE_PROPERTIES {
            return Err(
                VectorStoreValidationError::TooManyProperties {
                    actual: n,
                    maximum: MAX_VECTOR_STORE_PROPERTIES,
                },
            );
        }
        let mut i: usize = 0;
        assert(self@.skip(0) =~= self@);
        while i < n
            invariant
                n == self.entries@.len(),
                n == self@.len(),
                i <= n,
                n <= MAX_VECTOR_STORE_PROPERTIES,
                first_invalid_pair(self@) == first_invalid_pair(self@.skip(i as int)),
            decreases n - i,
        {
            assert(self@.skip(i as int)[0] == self@[i as int]);
            assert(self@[i as int] == (self.entries@[i as int].0@, self.entries@[i as int].1@));
            assert(self@.skip(i as int).drop_first() =~= self@.skip(i + 1));
            match validate_map_key(self.entries[i].0.as_str()) {
                Ok(()) => {},
                Err(e) => {
                    return Err(e);
                },
            }
            match validate_string_value(self.entries[i].1.as_str()) {
                Ok(()) => {},
                Err(e) => {
                    return Err(e);
                },
            }
            i = i + 1;
        }
        Ok(())
    }

    /// A map of decoded pairs, kept without checking the limits; a later
    /// pair replaces an earlier one with the same key.
    pub fn from_pairs(pairs: Vec<(String, String)>) -> (r: Self)
        ensures
            r@ == insert_all(Seq::empty(), pairs@.map_values(|p: (String, String)| (p.0@, p.1@))),
    {
        let ghost all = pairs@.map_values(|p: (String, String)| (p.0@, p.1@));
        let mut entries: Vec<(String, String)> = Vec::new();
        assert(metadata_pairs(entries@) =~= Seq::<(Seq<char>, Seq<char>)>::empty());
        let mut pairs = pairs;
        let ghost orig = pairs@;
        let n = pairs.len();
        let mut k: usize = 0;
        assert(all.skip(0) =~= all);
        while k < n
            invariant
                n == orig.len(),
                k <= n,
                pairs@ == orig.skip(k as int),
                all == orig.map_values(|p: (String, String)| (p.0@, p.1@)),
                keys_ordered(metadata_pairs(entries@)),
                insert_all(Seq::empty(), all) == insert_all(metadata_pairs(entries@), all.skip(k as int)),
            decreases n - k,
        {
            let (key, value) = pairs.remove(0);
            proof {
                assert(orig.skip(k as int)[0] == orig[k as int]);
                assert(pairs@ =~= orig.skip(k + 1));
                assert(all.skip(k as int)[0] == all[k as int]);
                assert(all.skip(k as int).drop_first() =~= all.skip(k + 1));
            }
            let _ = metadata_pairs_insert(&mut entries, key, value);
            k = k + 1;
        }
        assert(all.skip(n as int).len() == 0);
        VectorStoreMetadata { entries }
    }
}

/// Laws of metadata insertion: a stored pair reads back, other keys are
/// untouched, and the map grows only by a new key.
pub proof fn law_metadata_insert(
    m: Seq<(Seq<char>, Seq<char>)>,
    key: Seq<char>,
    value: Seq<char>,
    other: Seq<char>,
)
    requires
        keys_ordered(m),
    ensures
        entry_get(entry_insert(m, key, value), key) == Some(value),
        other != key ==> entry_get(entry_insert(m, key, value), other) == entry_get(m, other),
        entry_insert(m, key, value).len() == m.len() + if entry_get(m, key) is Some {
            0int
        } else {
            1int
        },
        keys_ordered(entry_insert(m, key, value)),
{
    lemma_get_after_insert(m, key, value, key);
    lemma_get_after_insert(m, key, value, other);
    lemma_insert_len(m, key, value);
    lemma_insert_keeps_order(m, key, value);
}

/// An accepted insertion never grows a map past 16 pairs: a map of 16 or
/// more pairs only has values of its keys replaced.
pub proof fn law_metadata_insert_bounded(
    m: Seq<(Seq<char>, Seq<char>)>,
    key: Seq<char>,
    value: Seq<char>,
)
    requires
        keys_ordered(m),
        metadata_insert_error(m, key, value) is None,
    ensures
        m.len() < MAX_VECTOR_STORE_PROPERTIES ==> entry_insert(m, key, value).len() <= MAX_VECTOR_STORE_PROPERTIES,
        m.len() >= MAX_VECTOR_STORE_PROPERTIES ==> entry_insert(m, key, value).len() == m.len(),
{
    lemma_insert_len(m, key, value);
}

/// A vector-store expiration policy with a period of 1 to 365 days.
#[derive(Debug)]
pub struct VectorStoreExpirationAfter {
    anchor: VectorStoreExpirationAnchor,
    days: u16,
}

impl VectorStoreExpirationAfter {
    #[verifier::type_invariant]
    spec fn inv(&self) -> bool {
        MIN_VECTOR_STORE_EXPIRATION_DAYS <= self.days <= MAX_VECTOR_STORE_EXPIRATION_DAYS
    }

    pub closed spec fn spec_anchor(&self) -> VectorStoreExpirationAnchor {
        self.anchor
    }

    pub closed spec fn spec_days(&self) -> u16 {
        self.days
    }

    /// A policy anchored at the store's last activity.
    pub fn new(days: u16) -> (r: Result<Self, VectorStoreValidationError>)
        ensures
            1 <= days <= 365 ==> (r matches Ok(p) && p.spec_days() == days && p.spec_anchor()
                == VectorStoreExpirationAnchor::LastActiveAt),
            !(1 <= days <= 365) ==> r == Err::<Self, VectorStoreValidationError>(
                VectorStoreValidationError::InvalidExpirationDays { days },
            ),
    {
        VectorStoreExpirationAfter::from_raw_anchor(VectorStoreExpirationAnchor::LastActiveAt, days)
    }

    /// A policy with any anchor, including one added after this crate.
    pub fn from_raw_anchor(anchor: VectorStoreExpirationAnchor, days: u16) -> (r: Result<
        Self,
        VectorStoreValidationError,
    >)
        ensures
            1 <= days <= 365 ==> (r matches Ok(p) && p.spec_days() == days && p.spec_anchor() == anchor),
            !(1 <= days <= 365) ==> r == Err::<Self, VectorStoreValidationError>(
                VectorStoreValidationError::InvalidExpirationDays { days },
            ),
    {
        if days < MIN_VECTOR_STORE_EXPIRATION_DAYS || days > MAX_VECTOR_STORE_EXPIRATION_DAYS {
            return Err(VectorStoreValidationError::InvalidExpirationDays { days });
        }
        Ok(VectorStoreExpirationAfter { anchor, days })
    }

    /// The anchor.
    pub fn anchor(&self) -> (r: &VectorStoreExpirationAnchor)
        ensures
            *r == self.spec_anchor(),
    {
        &self.anchor
    }

    /// The expiration period in days.
    pub fn days(&self) -> (r: u16)
        ensures
            r == self.spec_days(),
            1 <= r <= 365,
    {
        proof {
            use_type_invariant(self);
        }
        self.days
    }
}

/// Parameters of static file chunking: a maximum chunk size of 100 to 4096
/// tokens, and an overlap checked by [`StaticChunkingStrategy::validate`].
#[derive(Debug)]
pub struct StaticChunkingStrategy {
    max_chunk_size_tokens: u32,
    chunk_overlap_tokens: u32,
}

impl StaticChunkingStrategy {
    #[verifier::type_invariant]
    spec fn inv(&self) -> bool {
        MIN_STATIC_CHUNK_TOKENS <= self.max_chunk_size_tokens <= MAX_STATIC_CHUNK_TOKENS
    }

    pub closed spec fn spec_max_chunk_size_tokens(&self) -> u32 {
        self.max_chunk_size_tokens
    }

    pub closed spec fn spec_chunk_overlap_tokens(&self) -> u32 {
        self.chunk_overlap_tokens
    }

    /// A static strategy; the maximum chunk size must be 100 to 4096 tokens.
    pub fn new(max_chunk_size_tokens: u32, chunk_overlap_tokens: u32) -> (r: Result<
        Self,
        VectorStoreValidationError,
    >)
        ensures
            100 <= max_chunk_size_tokens <= 4096 ==> (r matches Ok(s) && s.spec_max_chunk_size_tokens()
                == max_chunk_size_tokens && s.spec_chunk_overlap_tokens() == chunk_overlap_tokens),
            !(100 <= max_chunk_size_tokens <= 4096) ==> r == Err::<Self, VectorStoreValidationError>(
                VectorStoreValidationError::InvalidChunkSize { tokens: max_chunk_size_tokens },
            ),
    {
        if max_chunk_size_tokens < MIN_STATIC_CHUNK_TOKENS || max_chunk_size_tokens
            > MAX_STATIC_CHUNK_TOKENS {
            return Err(
                VectorStoreValidationError::InvalidChunkSize { tokens: max_chunk_size_tokens },
            );
        }
        Ok(StaticChunkingStrategy { max_chunk_size_tokens, chunk_overlap_tokens })
    }

    /// Checks that the overlap is at most half the maximum chunk size.
    pub fn validate(&self) -> (r: Result<(), VectorStoreValidationError>)
        ensures
            r == chunking_check(*self),
    {
        if self.chunk_overlap_tokens > self.max_chunk_size_tokens / 2 {
            return Err(
                VectorStoreValidationError::InvalidChunkOverlap {
                    overlap: self.chunk_overlap_tokens,
                    maximum: self.max_chunk_size_tokens,
                },
            );
        }
        Ok(())
    }

    /// Maximum tokens in one chunk.
    pub fn max_chunk_size_tokens(&self) -> (r: u32)
        ensures
            r == self.spec_max_chunk_size_tokens(),
            100 <= r <= 4096,
    {
        proof {
            use_type_invariant(self);
        }
        self.max_chunk_size_tokens
    }

    /// Tokens shared by adjacent chunks.
    pub fn chunk_overlap_tokens(&self) -> (r: u32)
        ensures
            r == self.spec_chunk_overlap_tokens(),
    {
        self.chunk_overlap_tokens
    }
}

/// The overlap rule of a static strategy: the overlap is at most half the
/// maximum chunk size (rounded down).
pub open spec fn chunking_check(s: StaticChunkingStrategy) -> Result<(), VectorStoreValidationError> {
    if s.spec_chunk_overlap_tokens() > s.spec_max_chunk_size_tokens() / 2 {
        Err(
            VectorStoreValidationError::InvalidChunkOverlap {
                overlap: s.spec_chunk_overlap_tokens(),
                maximum: s.spec_max_chunk_size_tokens(),
            },
        )
    } else {
        Ok(())
    }
}

/// A static strategy passes exactly when twice its overlap is at most its
/// maximum chunk size; otherwise it is refused with both numbers.
pub proof fn law_chunk_overlap_at_most_half(s: StaticChunkingStrategy)
    ensures
        chunking_check(s) is Ok <==> 2 * s.spec_chunk_overlap_tokens() <= s.spec_max_chunk_size_tokens(),
        chunking_check(s) is Err ==> chunking_check(s) == Err::<(), VectorStoreValidationError>(
            VectorStoreValidationError::InvalidChunkOverlap {
                overlap: s.spec_chunk_overlap_tokens(),
                maximum: s.spec_max_chunk_size_tokens(),
            },
        ),
{
}

/// Chunking strategy of a request, by its `type`.
#[derive(Clone, Debug)]
pub enum VectorStoreChunkingStrategyRequest {
    /// `auto`.
    Auto,
    /// `static`, with its parameters.
    Static(StaticChunkingStrategy),
    /// A strategy added after this crate was released, as received.
    Unknown(JsonObject),
}

impl VectorStoreChunkingStrategyRequest {
    /// The `auto` strategy.
    pub fn auto() -> (r: Self)
        ensures
            r is Auto,
    {
        VectorStoreChunkingStrategyRequest::Auto
    }

    /// The `static` strategy with the given parameters.
    pub fn static_strategy(strategy: StaticChunkingStrategy) -> (r: Self)
        ensures
            r == VectorStoreChunkingStrategyRequest::Static(strategy),
    {
        VectorStoreChunkingStrategyRequest::Static(strategy)
    }

    /// Checks the overlap rule of a static strategy; other strategies pass.
    pub fn validate(&self) -> (r: Result<(), VectorStoreValidationError>)
        ensures
            r == strategy_check(*self),
    {
        match self {
            VectorStoreChunkingStrategyRequest::Static(s) => s.validate(),
            _ => Ok(()),
        }
    }
}

/// The check of a chunking strategy: only a static strategy has a rule.
pub open spec fn strategy_check(s: VectorStoreChunkingStrategyRequest) -> Result<(), VectorStoreValidationError> {
    match s {
        VectorStoreChunkingStrategyRequest::Static(st) => chunking_check(st),
        _ => Ok(()),
    }
}

/// Chunking strategy reported for an attached file, by its `type`.
#[derive(Clone, Debug)]
pub enum VectorStoreChunkingStrategy {
    /// `static`, with its parameters.
    Static(StaticChunkingStrategy),
    /// `other`: the file was chunked before strategies were reported.
    Other,
    /// A strategy added after this crate was released, as received.
    Unknown(JsonObject),
}

/// At most 500 initial file IDs of a new vector store.
#[derive(Debug)]
pub struct VectorStoreInitialFileIds(Vec<FileId>);

impl View for VectorStoreInitialFileIds {
    type V = Seq<FileId>;

    closed spec fn view(&self) -> Seq<FileId> {
        self.0@
    }
}

impl VectorStoreInitialFileIds {
    #[verifier::type_invariant]
    spec fn inv(&self) -> bool {
        self.0@.len() <= MAX_VECTOR_STORE_INITIAL_FILES
    }

    /// Checks the count of initial file IDs.
    pub fn new(values: Vec<FileId>) -> (r: Result<Self, VectorStoreValidationError>)
        ensures
            values@.len() <= 500 ==> (r matches Ok(v) && v@ == values@),
            values@.len() > 500 ==> r == Err::<Self, VectorStoreValidationError>(
                VectorStoreValidationError::TooManyInitialFiles {
                    actual: values.len(),
                    maximum: MAX_VECTOR_STORE_INITIAL_FILES,
                },
            ),
    {
        if values.len() > MAX_VECTOR_STORE_INITIAL_FILES {
            return Err(
                VectorStoreValidationError::TooManyInitialFiles {
                    actual: values.len(),
                    maximum: MAX_VECTOR_STORE_INITIAL_FILES,
                },
            );
        }
        Ok(VectorStoreInitialFileIds(values))
    }

    /// The IDs, in order.
    pub fn as_slice(&self) -> (r: &[FileId])
        ensures
            r@ == self@,
            r@.len() <= 500,
    {
        proof {
            use_type_invariant(self);
        }
        self.0.as_slice()
    }
}

/// One to 2000 file IDs of a file batch.
#[derive(Debug)]
pub struct VectorStoreBatchFileIds(Vec<FileId>);

impl View for VectorStoreBatchFileIds {
    type V = Seq<FileId>;

    closed spec fn view(&self) -> Seq<FileId> {
        self.0@
    }
}

impl VectorStoreBatchFileIds {
    #[verifier::type_invariant]
    spec fn inv(&self) -> bool {
        1 <= self.0@.len() <= MAX_VECTOR_STORE_BATCH_FILES
    }

    /// Checks the count of batch file IDs.
    pub fn new(values: Vec<FileId>) -> (r: Result<Self, VectorStoreValidationError>)
        ensures
            1 <= values@.len() <= 2000 ==> (r matches Ok(v) && v@ == values@),
            !(1 <= values@.len() <= 2000) ==> r == Err::<Self, VectorStoreValidationError>(
                VectorStoreValidationError::InvalidBatchFileCount {
                    actual: values.len(),
                    maximum: MAX_VECTOR_STORE_BATCH_FILES,
                },
            ),
    {
        if values.len() == 0 || values.len() > MAX_VECTOR_STORE_BATCH_FILES {
            return Err(
                VectorStoreValidationError::InvalidBatchFileCount {
                    actual: values.len(),
                    maximum: MAX_VECTOR_STORE_BATCH_FILES,
                },
            );
        }
        Ok(VectorStoreBatchFileIds(values))
    }

    /// The IDs, in order.
    pub fn as_slice(&self) -> (r: &[FileId])
        ensures
            r@ == self@,
            1 <= r@.len() <= 2000,
    {
        proof {
            use_type_invariant(self);
        }
        self.0.as_slice()
    }
}


/// A page size of list endpoints: at least 1.
#[derive(Debug, Clone, Copy)]
pub struct VectorStoreListLimit(u32);

impl View for VectorStoreListLimit {
    type V = u32;

    closed spec fn view(&self) -> u32 {
        self.0
    }
}

impl VectorStoreListLimit {
    #[verifier::type_invariant]
    spec fn inv(&self) -> bool {
        1 <= self.0
    }

    /// Checks a page size.
    pub fn new(value: u32) -> (r: Result<Self, VectorStoreValidationError>)
        ensures
            (1 <= value) ==> (r matches Ok(v) && v@ == value),
            !(1 <= value) ==> r == Err::<Self, VectorStoreValidationError>(VectorStoreValidationError::InvalidListLimit { limit: value }),
    {
        if value < 1 {
            return Err(VectorStoreValidationError::InvalidListLimit { limit: value });
        }
        Ok(VectorStoreListLimit(value))
    }

    /// The validated value.
    pub fn get(self) -> (r: u32)
        ensures
            r == self@,
            1 <= r,
    {
        proof {
            use_type_invariant(&self);
        }
        self.0
    }
}


/// A search result count of 1 to 50.
#[derive(Debug, Clone, Copy)]
pub struct VectorStoreMaxResults(u8);

impl View for VectorStoreMaxResults {
    type V = u8;

    closed spec fn view(&self) -> u8 {
        self.0
    }
}

impl VectorStoreMaxResults {
    #[verifier::type_invariant]
    spec fn inv(&self) -> bool {
        1 <= self.0 && self.0 <= 50
    }

    /// Checks a result count.
    pub fn new(value: u8) -> (r: Result<Self, VectorStoreValidationError>)
        ensures
            (1 <= value && value <= 50) ==> (r matches Ok(v) && v@ == value),
            !(1 <= value && value <= 50) ==> r == Err::<Self, VectorStoreValidationError>(VectorStoreValidationError::InvalidMaxResults { actual: value }),
    {
        if value < 1 || value > 50 {
            return Err(VectorStoreValidationError::InvalidMaxResults { actual: value });
        }
        Ok(VectorStoreMaxResults(value))
    }

    /// The validated value.
    pub fn get(self) -> (r: u8)
        ensures
            r == self@,
            1 <= r && r <= 50,
    {
        proof {
            use_type_invariant(&self);
        }
        self.0
    }
}


/// Creation parameters of a vector store; omitted values use service defaults.
#[derive(Clone, Debug)]
pub struct CreateVectorStoreRequest {
    file_ids: Omittable<VectorStoreInitialFileIds>,
    name: Omittable<String>,
    description: Omittable<String>,
    expires_after: Omittable<VectorStoreExpirationAfter>,
    chunking_strategy: Omittable<VectorStoreChunkingStrategyRequest>,
    metadata: Omittable<Nullable<VectorStoreMetadata>>,
}

impl CreateVectorStoreRequest {
    pub closed spec fn spec_file_ids(&self) -> Omittable<VectorStoreInitialFileIds> {
        self.file_ids
    }

    pub closed spec fn spec_name(&self) -> Omittable<String> {
        self.name
    }

    pub closed spec fn spec_description(&self) -> Omittable<String> {
        self.description
    }

    pub closed spec fn spec_expires_after(&self) -> Omittable<VectorStoreExpirationAfter> {
        self.expires_after
    }

    pub closed spec fn spec_chunking_strategy(&self) -> Omittable<VectorStoreChunkingStrategyRequest> {
        self.chunking_strategy
    }

    pub closed spec fn spec_metadata(&self) -> Omittable<Nullable<VectorStoreMetadata>> {
        self.metadata
    }

    /// A request with every field left out.
    pub fn new() -> (r: Self)
        ensures
            r.spec_file_ids() is Omitted,
            r.spec_name() is Omitted,
            r.spec_description() is Omitted,
            r.spec_expires_after() is Omitted,
            r.spec_chunking_strategy() is Omitted,
            r.spec_metadata() is Omitted,
    {
        CreateVectorStoreRequest {
            file_ids: Omittable::Omitted,
            name: Omittable::Omitted,
            description: Omittable::Omitted,
            expires_after: Omittable::Omitted,
            chunking_strategy: Omittable::Omitted,
            metadata: Omittable::Omitted,
        }
    }

    /// Sets the initial files; at most 500.
    pub fn with_file_ids(self, file_ids: Vec<FileId>) -> (r: Result<Self, VectorStoreValidationError>)
        ensures
            file_ids@.len() <= 500 ==> (r matches Ok(q) && q.spec_file_ids() matches Omittable::Value(ids)
                && ids@ == file_ids@ && q.spec_name() == self.spec_name() && q.spec_description()
                == self.spec_description() && q.spec_expires_after() == self.spec_expires_after()
                && q.spec_chunking_strategy() == self.spec_chunking_strategy() && q.spec_metadata()
                == self.spec_metadata()),
            file_ids@.len() > 500 ==> r == Err::<Self, VectorStoreValidationError>(
                VectorStoreValidationError::TooManyInitialFiles {
                    actual: file_ids.len(),
                    maximum: MAX_VECTOR_STORE_INITIAL_FILES,
                },
            ),
    {
        match VectorStoreInitialFileIds::new(file_ids) {
            Ok(ids) => Ok(CreateVectorStoreRequest { file_ids: Omittable::Value(ids), ..self }),
            Err(e) => Err(e),
        }
    }

    /// Sets the name.
    pub fn with_name(self, name: &str) -> (r: Self)
        ensures
            r.spec_name() matches Omittable::Value(n) && n@ == name@,
            r.spec_file_ids() == self.spec_file_ids(),
            r.spec_description() == self.spec_description(),
            r.spec_expires_after() == self.spec_expires_after(),
            r.spec_chunking_strategy() == self.spec_chunking_strategy(),
            r.spec_metadata() == self.spec_metadata(),
    {
        CreateVectorStoreRequest { name: Omittable::Value(name.to_owned()), ..self }
    }

    /// Sets the description.
    pub fn with_description(self, description: &str) -> (r: Self)
        ensures
            r.spec_description() matches Omittable::Value(d) && d@ == description@,
            r.spec_file_ids() == self.spec_file_ids(),
            r.spec_name() == self.spec_name(),
            r.spec_expires_after() == self.spec_expires_after(),
            r.spec_chunking_strategy() == self.spec_chunking_strategy(),
            r.spec_metadata() == self.spec_metadata(),
    {
        CreateVectorStoreRequest { description: Omittable::Value(description.to_owned()), ..self }
    }

    /// Sets the expiration policy.
    pub fn with_expiration(self, expiration: VectorStoreExpirationAfter) -> (r: Self)
        ensures
            r.spec_expires_after() == Omittable::Value(expiration),
            r.spec_file_ids() == self.spec_file_ids(),
            r.spec_name() == self.spec_name(),
            r.spec_description() == self.spec_description(),
            r.spec_chunking_strategy() == self.spec_chunking_strategy(),
            r.spec_metadata() == self.spec_metadata(),
    {
        CreateVectorStoreRequest { expires_after: Omittable::Value(expiration), ..self }
    }

    /// Sets the chunking strategy.
    pub fn with_chunking_strategy(self, strategy: VectorStoreChunkingStrategyRequest) -> (r: Self)
        ensures
            r.spec_chunking_strategy() == Omittable::Value(strategy),
            r.spec_file_ids() == self.spec_file_ids(),
            r.spec_name() == self.spec_name(),
            r.spec_description() == self.spec_description(),
            r.spec_expires_after() == self.spec_expires_after(),
            r.spec_metadata() == self.spec_metadata(),
    {
        CreateVectorStoreRequest { chunking_strategy: Omittable::Value(strategy), ..self }
    }

    /// Sets the metadata.
    pub fn with_metadata(self, metadata: VectorStoreMetadata) -> (r: Self)
        ensures
            r.spec_metadata() == Omittable::Value(Nullable::Value(metadata)),
            r.spec_file_ids() == self.spec_file_ids(),
            r.spec_name() == self.spec_name(),
            r.spec_description() == self.spec_description(),
            r.spec_expires_after() == self.spec_expires_after(),
            r.spec_chunking_strategy() == self.spec_chunking_strategy(),
    {
        CreateVectorStoreRequest { metadata: Omittable::Value(Nullable::Value(metadata)), ..self }
    }

    /// Sends the metadata as an explicit `null`.
    pub fn with_metadata_null(self) -> (r: Self)
        ensures
            r.spec_metadata() == Omittable::<Nullable<VectorStoreMetadata>>::Value(Nullable::Null),
            r.spec_file_ids() == self.spec_file_ids(),
            r.spec_name() == self.spec_name(),
            r.spec_description() == self.spec_description(),
            r.spec_expires_after() == self.spec_expires_after(),
            r.spec_chunking_strategy() == self.spec_chunking_strategy(),
    {
        CreateVectorStoreRequest { metadata: Omittable::Value(Nullable::Null), ..self }
    }

    /// Leaves the metadata out.
    pub fn clear_metadata(self) -> (r: Self)
        ensures
            r.spec_metadata() is Omitted,
            r.spec_file_ids() == self.spec_file_ids(),
            r.spec_name() == self.spec_name(),
            r.spec_description() == self.spec_description(),
            r.spec_expires_after() == self.spec_expires_after(),
            r.spec_chunking_strategy() == self.spec_chunking_strategy(),
    {
        CreateVectorStoreRequest { metadata: Omittable::Omitted, ..self }
    }

    /// Checks the chunking overlap rule, then the metadata limits.
    pub fn validate(&self) -> (r: Result<(), VectorStoreValidationError>)
        ensures
            r == create_check(self.spec_chunking_strategy(), self.spec_metadata()),
    {
        match &self.chunking_strategy {
            Omittable::Value(s) => match s.validate() {
                Ok(()) => {},
                Err(e) => {
                    return Err(e);
                },
            },
            Omittable::Omitted => {},
        }
        match &self.metadata {
            Omittable::Value(Nullable::Value(m)) => m.validate(),
            _ => Ok(()),
        }
    }

    /// The `file_ids` field.
    pub fn file_ids(&self) -> (r: &Omittable<VectorStoreInitialFileIds>)
        ensures
            *r == self.spec_file_ids(),
    {
        &self.file_ids
    }

    /// The `name` field.
    pub fn name(&self) -> (r: &Omittable<String>)
        ensures
            *r == self.spec_name(),
    {
        &self.name
    }

    /// The `description` field.
    pub fn description(&self) -> (r: &Omittable<String>)
        ensures
            *r == self.spec_description(),
    {
        &self.description
    }

    /// The `expires_after` field.
    pub fn expires_after(&self) -> (r: &Omittable<VectorStoreExpirationAfter>)
        ensures
            *r == self.spec_expires_after(),
    {
        &self.expires_after
    }

    /// The `chunking_strategy` field.
    pub fn chunking_strategy(&self) -> (r: &Omittable<VectorStoreChunkingStrategyRequest>)
        ensures
            *r == self.spec_chunking_strategy(),
    {
        &self.chunking_strategy
    }

    /// The `metadata` field.
    pub fn metadata(&self) -> (r: &Omittable<Nullable<VectorStoreMetadata>>)
        ensures
            *r == self.spec_metadata(),
    {
        &self.metadata
    }

}

/// The metadata check of a request: the limits apply to present, non-null metadata.
pub open spec fn metadata_field_check(m: Omittable<Nullable<VectorStoreMetadata>>) -> Result<(), VectorStoreValidationError> {
    match m {
        Omittable::Value(Nullable::Value(md)) => metadata_check(md@),
        _ => Ok(()),
    }
}

/// The checks of a creation request: the chunking strategy first, then the metadata.
pub open spec fn create_check(
    s: Omittable<VectorStoreChunkingStrategyRequest>,
    m: Omittable<Nullable<VectorStoreMetadata>>,
) -> Result<(), VectorStoreValidationError> {
    match s {
        Omittable::Value(st) => match strategy_check(st) {
            Err(e) => Err(e),
            Ok(()) => metadata_field_check(m),
        },
        Omittable::Omitted => metadata_field_check(m),
    }
}

impl Default for CreateVectorStoreRequest {
    fn default() -> (r: Self)
        ensures
            r.spec_file_ids() is Omitted,
            r.spec_name() is Omitted,
            r.spec_description() is Omitted,
            r.spec_expires_after() is Omitted,
            r.spec_chunking_strategy() is Omitted,
            r.spec_metadata() is Omitted,
    {
        CreateVectorStoreRequest::new()
    }
}

/// Modification parameters of a vector store; an explicit `null` clears a field.
#[derive(Clone, Debug)]
pub struct UpdateVectorStoreRequest {
    name: Omittable<Nullable<String>>,
    expires_after: Omittable<Nullable<VectorStoreExpirationAfter>>,
    metadata: Omittable<Nullable<VectorStoreMetadata>>,
}

impl UpdateVectorStoreRequest {
    pub closed spec fn spec_name(&self) -> Omittable<Nullable<String>> {
        self.name
    }

    pub closed spec fn spec_expires_after(&self) -> Omittable<Nullable<VectorStoreExpirationAfter>> {
        self.expires_after
    }

    pub closed spec fn spec_metadata(&self) -> Omittable<Nullable<VectorStoreMetadata>> {
        self.metadata
    }

    /// A request with every field left out.
    pub fn new() -> (r: Self)
        ensures
            r.spec_name() is Omitted,
            r.spec_expires_after() is Omitted,
            r.spec_metadata() is Omitted,
    {
        UpdateVectorStoreRequest {
            name: Omittable::Omitted,
            expires_after: Omittable::Omitted,
            metadata: Omittable::Omitted,
        }
    }

    /// Sets the name.
    pub fn with_name(self, name: &str) -> (r: Self)
        ensures
            r.spec_name() matches Omittable::Value(Nullable::Value(n)) && n@ == name@,
            r.spec_expires_after() == self.spec_expires_after(),
            r.spec_metadata() == self.spec_metadata(),
    {
        UpdateVectorStoreRequest { name: Omittable::Value(Nullable::Value(name.to_owned())), ..self }
    }

    /// Clears the name with an explicit `null`.
    pub fn with_name_null(self) -> (r: Self)
        ensures
            r.spec_name() == Omittable::<Nullable<String>>::Value(Nullable::Null),
            r.spec_expires_after() == self.spec_expires_after(),
            r.spec_metadata() == self.spec_metadata(),
    {
        UpdateVectorStoreRequest { name: Omittable::Value(Nullable::Null), ..self }
    }

    /// Leaves the name out.
    pub fn clear_name(self) -> (r: Self)
        ensures
            r.spec_name() is Omitted,
            r.spec_expires_after() == self.spec_expires_after(),
            r.spec_metadata() == self.spec_metadata(),
    {
        UpdateVectorStoreRequest { name: Omittable::Omitted, ..self }
    }

    /// Sets the expiration policy.
    pub fn with_expiration(self, expiration: VectorStoreExpirationAfter) -> (r: Self)
        ensures
            r.spec_expires_after() == Omittable::Value(Nullable::Value(expiration)),
            r.spec_name() == self.spec_name(),
            r.spec_metadata() == self.spec_metadata(),
    {
        UpdateVectorStoreRequest { expires_after: Omittable::Value(Nullable::Value(expiration)), ..self }
    }

    /// Clears the expiration policy with an explicit `null`.
    pub fn with_expiration_null(self) -> (r: Self)
        ensures
            r.spec_expires_after() == Omittable::<Nullable<VectorStoreExpirationAfter>>::Value(Nullable::Null),
            r.spec_name() == self.spec_name(),
            r.spec_metadata() == self.spec_metadata(),
    {
        UpdateVectorStoreRequest { expires_after: Omittable::Value(Nullable::Null), ..self }
    }

    /// Leaves the expiration policy out.
    pub fn clear_expiration(self) -> (r: Self)
        ensures
            r.spec_expires_after() is Omitted,
            r.spec_name() == self.spec_name(),
            r.spec_metadata() == self.spec_metadata(),
    {
        UpdateVectorStoreRequest { expires_after: Omittable::Omitted, ..self }
    }

    /// Sets the metadata.
    pub fn with_metadata(self, metadata: VectorStoreMetadata) -> (r: Self)
        ensures
            r.spec_metadata() == Omittable::Value(Nullable::Value(metadata)),
            r.spec_name() == self.spec_name(),
            r.spec_expires_after() == self.spec_expires_after(),
    {
        UpdateVectorStoreRequest { metadata: Omittable::Value(Nullable::Value(metadata)), ..self }
    }

    /// Clears the metadata with an explicit `null`.
    pub fn with_metadata_null(self) -> (r: Self)
        ensures
            r.spec_metadata() == Omittable::<Nullable<VectorStoreMetadata>>::Value(Nullable::Null),
            r.spec_name() == self.spec_name(),
            r.spec_expires_after() == self.spec_expires_after(),
    {
        UpdateVectorStoreRequest { metadata: Omittable::Value(Nullable::Null), ..self }
    }

    /// Leaves the metadata out.
    pub fn clear_metadata(self) -> (r: Self)
        ensures
            r.spec_metadata() is Omitted,
            r.spec_name() == self.spec_name(),
            r.spec_expires_after() == self.spec_expires_after(),
    {
        UpdateVectorStoreRequest { metadata: Omittable::Omitted, ..self }
    }


    /// Checks the metadata limits.
    pub fn validate(&self) -> (r: Result<(), VectorStoreValidationError>)
        ensures
            r == metadata_field_check(self.spec_metadata()),
    {
        match &self.metadata {
            Omittable::Value(Nullable::Value(m)) => m.validate(),
            _ => Ok(()),
        }
    }

    /// The `name` field.
    pub fn name(&self) -> (r: &Omittable<Nullable<String>>)
        ensures
            *r == self.spec_name(),
    {
        &self.name
    }

    /// The `expires_after` field.
    pub fn expires_after(&self) -> (r: &Omittable<Nullable<VectorStoreExpirationAfter>>)
        ensures
            *r == self.spec_expires_after(),
    {
        &self.expires_after
    }

    /// The `metadata` field.
    pub fn metadata(&self) -> (r: &Omittable<Nullable<VectorStoreMetadata>>)
        ensures
            *r == self.spec_metadata(),
    {
        &self.metadata
    }

}

impl Default for UpdateVectorStoreRequest {
    fn default() -> (r: Self)
        ensures
            r.spec_name() is Omitted,
            r.spec_expires_after() is Omitted,
            r.spec_metadata() is Omitted,
    {
        UpdateVectorStoreRequest::new()
    }
}

/// File counts of a vector store or a file batch.
#[derive(Clone, Debug)]
pub struct VectorStoreFileCounts {
    pub in_progress: i64,
    pub completed: i64,
    pub failed: i64,
    pub cancelled: i64,
    pub total: i64,
    /// Members not modelled here.
    pub extra: ExtraFields,
}
impl VectorStoreFileCounts {
    /// Files being processed.
    pub fn in_progress(&self) -> (r: i64)
        ensures
            r == self.in_progress,
    {
        self.in_progress
    }

    /// Files processed.
    pub fn completed(&self) -> (r: i64)
        ensures
            r == self.completed,
    {
        self.completed
    }

    /// Files that failed.
    pub fn failed(&self) -> (r: i64)
        ensures
            r == self.failed,
    {
        self.failed
    }

    /// Files cancelled.
    pub fn cancelled(&self) -> (r: i64)
        ensures
            r == self.cancelled,
    {
        self.cancelled
    }

    /// All files.
    pub fn total(&self) -> (r: i64)
        ensures
            r == self.total,
    {
        self.total
    }

    /// Members not modelled here, kept as received.
    pub fn extra_fields(&self) -> (r: &ExtraFields)
        ensures
            r@ == self.extra@,
    {
        &self.extra
    }

}

/// A vector store.
#[derive(Clone, Debug)]
pub struct VectorStore {
    pub id: VectorStoreId,
    pub object: VectorStoreObjectType,
    pub created_at: i64,
    pub name: String,
    pub usage_bytes: i64,
    pub file_counts: VectorStoreFileCounts,
    pub status: VectorStoreStatus,
    pub expires_after: Omittable<VectorStoreExpirationAfter>,
    pub expires_at: Omittable<Nullable<i64>>,
    pub last_active_at: Nullable<i64>,
    pub metadata: Nullable<VectorStoreMetadata>,
    /// Members not modelled here.
    pub extra: ExtraFields,
}
impl VectorStore {
    /// The identifier.
    pub fn id(&self) -> (r: &VectorStoreId)
        ensures
            *r == self.id,
    {
        &self.id
    }

    /// The object discriminator.
    pub fn object(&self) -> (r: &VectorStoreObjectType)
        ensures
            *r == self.object,
    {
        &self.object
    }

    /// The name.
    pub fn name(&self) -> (r: &str)
        ensures
            r@ == self.name@,
    {
        self.name.as_str()
    }

    /// Creation time in Unix seconds.
    pub fn created_at(&self) -> (r: i64)
        ensures
            r == self.created_at,
    {
        self.created_at
    }

    /// Bytes used.
    pub fn usage_bytes(&self) -> (r: i64)
        ensures
            r == self.usage_bytes,
    {
        self.usage_bytes
    }

    /// The file counts.
    pub fn file_counts(&self) -> (r: &VectorStoreFileCounts)
        ensures
            *r == self.file_counts,
    {
        &self.file_counts
    }

    /// The lifecycle state.
    pub fn status(&self) -> (r: &VectorStoreStatus)
        ensures
            *r == self.status,
    {
        &self.status
    }

    /// The expiration policy, when given.
    pub fn expires_after(&self) -> (r: &Omittable<VectorStoreExpirationAfter>)
        ensures
            *r == self.expires_after,
    {
        &self.expires_after
    }

    /// The expiration time, when given.
    pub fn expires_at(&self) -> (r: &Omittable<Nullable<i64>>)
        ensures
            *r == self.expires_at,
    {
        &self.expires_at
    }

    /// The last activity time.
    pub fn last_active_at(&self) -> (r: &Nullable<i64>)
        ensures
            *r == self.last_active_at,
    {
        &self.last_active_at
    }

    /// The metadata.
    pub fn metadata(&self) -> (r: &Nullable<VectorStoreMetadata>)
        ensures
            *r == self.metadata,
    {
        &self.metadata
    }

    /// Members not modelled here, kept as received.
    pub fn extra_fields(&self) -> (r: &ExtraFields)
        ensures
            r@ == self.extra@,
    {
        &self.extra
    }

}

/// Confirmation of a vector-store deletion.
#[derive(Clone, Debug)]
pub struct DeletedVectorStore {
    pub id: VectorStoreId,
    pub deleted: bool,
    pub object: DeletedVectorStoreObjectType,
    /// Members not modelled here.
    pub extra: ExtraFields,
}
impl DeletedVectorStore {
    /// The identifier.
    pub fn id(&self) -> (r: &VectorStoreId)
        ensures
            *r == self.id,
    {
        &self.id
    }

    /// Whether the store was deleted.
    pub fn deleted(&self) -> (r: bool)
        ensures
            r == self.deleted,
    {
        self.deleted
    }

    /// The object discriminator.
    pub fn object(&self) -> (r: &DeletedVectorStoreObjectType)
        ensures
            *r == self.object,
    {
        &self.object
    }

    /// Members not modelled here, kept as received.
    pub fn extra_fields(&self) -> (r: &ExtraFields)
        ensures
            r@ == self.extra@,
    {
        &self.extra
    }

}

/// A page of vector stores.
#[derive(Clone, Debug)]
pub struct ListVectorStoresResponse {
    pub object: VectorStoreListObjectType,
    pub data: Vec<VectorStore>,
    pub first_id: VectorStoreId,
    pub last_id: VectorStoreId,
    pub has_more: bool,
    /// Members not modelled here.
    pub extra: ExtraFields,
}
impl ListVectorStoresResponse {
    /// The object discriminator.
    pub fn object(&self) -> (r: &VectorStoreListObjectType)
        ensures
            *r == self.object,
    {
        &self.object
    }

    /// The stores on this page.
    pub fn data(&self) -> (r: &[VectorStore])
        ensures
            r@ == self.data@,
    {
        self.data.as_slice()
    }

    /// The first ID of the page.
    pub fn first_id(&self) -> (r: &VectorStoreId)
        ensures
            *r == self.first_id,
    {
        &self.first_id
    }

    /// The last ID of the page.
    pub fn last_id(&self) -> (r: &VectorStoreId)
        ensures
            *r == self.last_id,
    {
        &self.last_id
    }

    /// Whether another page exists.
    pub fn has_more(&self) -> (r: bool)
        ensures
            r == self.has_more,
    {
        self.has_more
    }

    /// Members not modelled here, kept as received.
    pub fn extra_fields(&self) -> (r: &ExtraFields)
        ensures
            r@ == self.extra@,
    {
        &self.extra
    }

}

/// The last error of an attached file.
#[derive(Clone, Debug)]
pub struct VectorStoreFileLastError {
    pub code: VectorStoreFileErrorCode,
    pub message: String,
    /// Members not modelled here.
    pub extra: ExtraFields,
}
impl VectorStoreFileLastError {
    /// The error code.
    pub fn code(&self) -> (r: &VectorStoreFileErrorCode)
        ensures
            *r == self.code,
    {
        &self.code
    }

    /// The error message.
    pub fn message(&self) -> (r: &str)
        ensures
            r@ == self.message@,
    {
        self.message.as_str()
    }

    /// Members not modelled here, kept as received.
    pub fn extra_fields(&self) -> (r: &ExtraFields)
        ensures
            r@ == self.extra@,
    {
        &self.extra
    }

}

/// Confirmation of a file detachment.
#[derive(Clone, Debug)]
pub struct DeletedVectorStoreFile {
    pub id: FileId,
    pub deleted: bool,
    pub object: DeletedVectorStoreFileObjectType,
    /// Members not modelled here.
    pub extra: ExtraFields,
}
impl DeletedVectorStoreFile {
    /// The file identifier.
    pub fn id(&self) -> (r: &FileId)
        ensures
            *r == self.id,
    {
        &self.id
    }

    /// Whether the file was detached.
    pub fn deleted(&self) -> (r: bool)
        ensures
            r == self.deleted,
    {
        self.deleted
    }

    /// The object discriminator.
    pub fn object(&self) -> (r: &DeletedVectorStoreFileObjectType)
        ensures
            *r == self.object,
    {
        &self.object
    }

    /// Members not modelled here, kept as received.
    pub fn extra_fields(&self) -> (r: &ExtraFields)
        ensures
            r@ == self.extra@,
    {
        &self.extra
    }

}

/// A batch of files attached to a vector store.
#[derive(Clone, Debug)]
pub struct VectorStoreFileBatch {
    pub id: VectorStoreFileBatchId,
    pub object: VectorStoreFileBatchObjectType,
    pub created_at: i64,
    pub vector_store_id: VectorStoreId,
    pub status: VectorStoreFileStatus,
    pub file_counts: VectorStoreFileCounts,
    /// Members not modelled here.
    pub extra: ExtraFields,
}
impl VectorStoreFileBatch {
    /// The batch identifier.
    pub fn id(&self) -> (r: &VectorStoreFileBatchId)
        ensures
            *r == self.id,
    {
        &self.id
    }

    /// The object discriminator.
    pub fn object(&self) -> (r: &VectorStoreFileBatchObjectType)
        ensures
            *r == self.object,
    {
        &self.object
    }

    /// Creation time in Unix seconds.
    pub fn created_at(&self) -> (r: i64)
        ensures
            r == self.created_at,
    {
        self.created_at
    }

    /// The vector store.
    pub fn vector_store_id(&self) -> (r: &VectorStoreId)
        ensures
            *r == self.vector_store_id,
    {
        &self.vector_store_id
    }

    /// The lifecycle state.
    pub fn status(&self) -> (r: &VectorStoreFileStatus)
        ensures
            *r == self.status,
    {
        &self.status
    }

    /// The file counts.
    pub fn file_counts(&self) -> (r: &VectorStoreFileCounts)
        ensures
            *r == self.file_counts,
    {
        &self.file_counts
    }

    /// Members not modelled here, kept as received.
    pub fn extra_fields(&self) -> (r: &ExtraFields)
        ensures
            r@ == self.extra@,
    {
        &self.extra
    }

}

/// One piece of content of a search result.
#[derive(Clone, Debug)]
pub struct VectorStoreSearchContent {
    pub kind: VectorStoreContentType,
    pub text: String,
    /// Members not modelled here.
    pub extra: ExtraFields,
}
impl VectorStoreSearchContent {
    /// The content kind.
    pub fn kind(&self) -> (r: &VectorStoreContentType)
        ensures
            *r == self.kind,
    {
        &self.kind
    }

    /// The text.
    pub fn text(&self) -> (r: &str)
        ensures
            r@ == self.text@,
    {
        self.text.as_str()
    }

    /// Members not modelled here, kept as received.
    pub fn extra_fields(&self) -> (r: &ExtraFields)
        ensures
            r@ == self.extra@,
    {
        &self.extra
    }

}

/// One piece of parsed file content.
#[derive(Clone, Debug)]
pub struct VectorStoreFileContent {
    pub kind: Omittable<VectorStoreContentType>,
    pub text: Omittable<String>,
    /// Members not modelled here.
    pub extra: ExtraFields,
}
impl VectorStoreFileContent {
    /// The content kind, when given.
    pub fn kind(&self) -> (r: Option<&VectorStoreContentType>)
        ensures
            match self.kind {
                Omittable::Value(v) => r == Some(&v),
                Omittable::Omitted => r is None,
            },
    {
        match &self.kind {
            Omittable::Value(v) => Some(v),
            Omittable::Omitted => None,
        }
    }

    /// The text, when given.
    pub fn text(&self) -> (r: Option<&str>)
        ensures
            match self.text {
                Omittable::Value(v) => (r matches Some(x) && x@ == v@),
                Omittable::Omitted => r is None,
            },
    {
        match &self.text {
            Omittable::Value(v) => Some(v.as_str()),
            Omittable::Omitted => None,
        }
    }

    /// Members not modelled here, kept as received.
    pub fn extra_fields(&self) -> (r: &ExtraFields)
        ensures
            r@ == self.extra@,
    {
        &self.extra
    }

}

/// A page of parsed file content.
#[derive(Clone, Debug)]
pub struct VectorStoreFileContentResponse {
    pub object: VectorStoreFileContentPageObjectType,
    pub data: Vec<VectorStoreFileContent>,
    pub has_more: bool,
    pub next_page: Nullable<String>,
    /// Members not modelled here.
    pub extra: ExtraFields,
}
impl VectorStoreFileContentResponse {
    /// The object discriminator.
    pub fn object(&self) -> (r: &VectorStoreFileContentPageObjectType)
        ensures
            *r == self.object,
    {
        &self.object
    }

    /// The content on this page.
    pub fn data(&self) -> (r: &[VectorStoreFileContent])
        ensures
            r@ == self.data@,
    {
        self.data.as_slice()
    }

    /// Whether another page exists.
    pub fn has_more(&self) -> (r: bool)
        ensures
            r == self.has_more,
    {
        self.has_more
    }

    /// The next page token.
    pub fn next_page(&self) -> (r: &Nullable<String>)
        ensures
            *r == self.next_page,
    {
        &self.next_page
    }

    /// Members not modelled here, kept as received.
    pub fn extra_fields(&self) -> (r: &ExtraFields)
        ensures
            r@ == self.extra@,
    {
        &self.extra
    }

}

/// Query parameters of the vector-store list endpoint.
#[derive(Clone, Debug)]
pub struct VectorStoreListParams {
    limit: Omittable<VectorStoreListLimit>,
    order: Omittable<VectorStoreSortOrder>,
    after: Omittable<VectorStoreId>,
    before: Omittable<VectorStoreId>,
}

impl VectorStoreListParams {
    pub closed spec fn spec_limit(&self) -> Omittable<VectorStoreListLimit> {
        self.limit
    }

    pub closed spec fn spec_order(&self) -> Omittable<VectorStoreSortOrder> {
        self.order
    }

    pub closed spec fn spec_after(&self) -> Omittable<VectorStoreId> {
        self.after
    }

    pub closed spec fn spec_before(&self) -> Omittable<VectorStoreId> {
        self.before
    }

    /// Parameters with every field left out.
    pub fn new() -> (r: Self)
        ensures
            r.spec_limit() is Omitted,
            r.spec_order() is Omitted,
            r.spec_after() is Omitted,
            r.spec_before() is Omitted,
    {
        VectorStoreListParams { limit: Omittable::Omitted, order: Omittable::Omitted, after: Omittable::Omitted, before: Omittable::Omitted }
    }

    /// Sets the page size.
    pub fn with_limit(self, limit: VectorStoreListLimit) -> (r: Self)
        ensures
            r.spec_limit() == Omittable::Value(limit),
            r.spec_order() == self.spec_order(),
            r.spec_after() == self.spec_after(),
            r.spec_before() == self.spec_before(),
    {
        VectorStoreListParams { limit: Omittable::Value(limit), ..self }
    }

    /// Sets the sort order.
    pub fn with_order(self, order: VectorStoreSortOrder) -> (r: Self)
        ensures
            r.spec_order() == Omittable::Value(order),
            r.spec_limit() == self.spec_limit(),
            r.spec_after() == self.spec_after(),
            r.spec_before() == self.spec_before(),
    {
        VectorStoreListParams { order: Omittable::Value(order), ..self }
    }

    /// Starts after the given item.
    pub fn after(self, cursor: &str) -> (r: Self)
        ensures
            r.spec_after() matches Omittable::Value(c) && c@ == cursor@,
            r.spec_limit() == self.spec_limit(),
            r.spec_order() == self.spec_order(),
            r.spec_before() == self.spec_before(),
    {
        VectorStoreListParams { after: Omittable::Value(VectorStoreId::new(cursor)), ..self }
    }

    /// Ends before the given item.
    pub fn before(self, cursor: &str) -> (r: Self)
        ensures
            r.spec_before() matches Omittable::Value(c) && c@ == cursor@,
            r.spec_limit() == self.spec_limit(),
            r.spec_order() == self.spec_order(),
            r.spec_after() == self.spec_after(),
    {
        VectorStoreListParams { before: Omittable::Value(VectorStoreId::new(cursor)), ..self }
    }

    /// The page size in effect: the given one, or 20 when it is left out.
    pub fn effective_limit(&self) -> (r: u32)
        ensures
            r == match self.spec_limit() {
                Omittable::Omitted => DEFAULT_VECTOR_STORE_LIST_LIMIT,
                Omittable::Value(l) => l@,
            },
            r >= 1,
    {
        match self.limit {
            Omittable::Omitted => DEFAULT_VECTOR_STORE_LIST_LIMIT,
            Omittable::Value(l) => l.get(),
        }
    }

    /// The `limit` field.
    pub fn limit(&self) -> (r: &Omittable<VectorStoreListLimit>)
        ensures
            *r == self.spec_limit(),
    {
        &self.limit
    }

    /// The `order` field.
    pub fn order(&self) -> (r: &Omittable<VectorStoreSortOrder>)
        ensures
            *r == self.spec_order(),
    {
        &self.order
    }

    /// The `after` field.
    pub fn after_cursor(&self) -> (r: &Omittable<VectorStoreId>)
        ensures
            *r == self.spec_after(),
    {
        &self.after
    }

    /// The `before` field.
    pub fn before_cursor(&self) -> (r: &Omittable<VectorStoreId>)
        ensures
            *r == self.spec_before(),
    {
        &self.before
    }

}

impl Default for VectorStoreListParams {
    fn default() -> (r: Self)
        ensures
            r.spec_limit() is Omitted,
            r.spec_order() is Omitted,
            r.spec_after() is Omitted,
            r.spec_before() is Omitted,
    {
        VectorStoreListParams::new()
    }
}

/// Query parameters of the attached-file list endpoint.
#[derive(Clone, Debug)]
pub struct VectorStoreFileListParams {
    limit: Omittable<VectorStoreListLimit>,
    order: Omittable<VectorStoreSortOrder>,
    after: Omittable<FileId>,
    before: Omittable<FileId>,
    filter: Omittable<VectorStoreFileStatus>,
}

impl VectorStoreFileListParams {
    pub closed spec fn spec_limit(&self) -> Omittable<VectorStoreListLimit> {
        self.limit
    }

    pub closed spec fn spec_order(&self) -> Omittable<VectorStoreSortOrder> {
        self.order
    }

    pub closed spec fn spec_after(&self) -> Omittable<FileId> {
        self.after
    }

    pub closed spec fn spec_before(&self) -> Omittable<FileId> {
        self.before
    }

    pub closed spec fn spec_filter(&self) -> Omittable<VectorStoreFileStatus> {
        self.filter
    }

    /// Parameters with every field left out.
    pub fn new() -> (r: Self)
        ensures
            r.spec_limit() is Omitted,
            r.spec_order() is Omitted,
            r.spec_after() is Omitted,
            r.spec_before() is Omitted,
            r.spec_filter() is Omitted,
    {
        VectorStoreFileListParams { limit: Omittable::Omitted, order: Omittable::Omitted, after: Omittable::Omitted, before: Omittable::Omitted, filter: Omittable::Omitted }
    }

    /// Sets the page size.
    pub fn with_limit(self, limit: VectorStoreListLimit) -> (r: Self)
        ensures
            r.spec_limit() == Omittable::Value(limit),
            r.spec_order() == self.spec_order(),
            r.spec_after() == self.spec_after(),
            r.spec_before() == self.spec_before(),
            r.spec_filter() == self.spec_filter(),
    {
        VectorStoreFileListParams { limit: Omittable::Value(limit), ..self }
    }

    /// Sets the sort order.
    pub fn with_order(self, order: VectorStoreSortOrder) -> (r: Self)
        ensures
            r.spec_order() == Omittable::Value(order),
            r.spec_limit() == self.spec_limit(),
            r.spec_after() == self.spec_after(),
            r.spec_before() == self.spec_before(),
            r.spec_filter() == self.spec_filter(),
    {
        VectorStoreFileListParams { order: Omittable::Value(order), ..self }
    }

    /// Starts after the given item.
    pub fn after(self, cursor: &str) -> (r: Self)
        ensures
            r.spec_after() matches Omittable::Value(c) && c@ == cursor@,
            r.spec_limit() == self.spec_limit(),
            r.spec_order() == self.spec_order(),
            r.spec_before() == self.spec_before(),
            r.spec_filter() == self.spec_filter(),
    {
        VectorStoreFileListParams { after: Omittable::Value(FileId::new(cursor)), ..self }
    }

    /// Ends before the given item.
    pub fn before(self, cursor: &str) -> (r: Self)
        ensures
            r.spec_before() matches Omittable::Value(c) && c@ == cursor@,
            r.spec_limit() == self.spec_limit(),
            r.spec_order() == self.spec_order(),
            r.spec_after() == self.spec_after(),
            r.spec_filter() == self.spec_filter(),
    {
        VectorStoreFileListParams { before: Omittable::Value(FileId::new(cursor)), ..self }
    }

    /// Keeps only files in the given state.
    pub fn with_status(self, status: VectorStoreFileStatus) -> (r: Self)
        ensures
            r.spec_filter() == Omittable::Value(status),
            r.spec_limit() == self.spec_limit(),
            r.spec_order() == self.spec_order(),
            r.spec_after() == self.spec_after(),
            r.spec_before() == self.spec_before(),
    {
        VectorStoreFileListParams { filter: Omittable::Value(status), ..self }
    }

    /// The page size in effect: the given one, or 20 when it is left out.
    pub fn effective_limit(&self) -> (r: u32)
        ensures
            r == match self.spec_limit() {
                Omittable::Omitted => DEFAULT_VECTOR_STORE_LIST_LIMIT,
                Omittable::Value(l) => l@,
            },
            r >= 1,
    {
        match self.limit {
            Omittable::Omitted => DEFAULT_VECTOR_STORE_LIST_LIMIT,
            Omittable::Value(l) => l.get(),
        }
    }

    /// The `limit` field.
    pub fn limit(&self) -> (r: &Omittable<VectorStoreListLimit>)
        ensures
            *r == self.spec_limit(),
    {
        &self.limit
    }

    /// The `order` field.
    pub fn order(&self) -> (r: &Omittable<VectorStoreSortOrder>)
        ensures
            *r == self.spec_order(),
    {
        &self.order
    }

    /// The `after` field.
    pub fn after_cursor(&self) -> (r: &Omittable<FileId>)
        ensures
            *r == self.spec_after(),
    {
        &self.after
    }

    /// The `before` field.
    pub fn before_cursor(&self) -> (r: &Omittable<FileId>)
        ensures
            *r == self.spec_before(),
    {
        &self.before
    }

    /// The `filter` field.
    pub fn status_filter(&self) -> (r: &Omittable<VectorStoreFileStatus>)
        ensures
            *r == self.spec_filter(),
    {
        &self.filter
    }

}

impl Default for VectorStoreFileListParams {
    fn default() -> (r: Self)
        ensures
            r.spec_limit() is Omitted,
            r.spec_order() is Omitted,
            r.spec_after() is Omitted,
            r.spec_before() is Omitted,
            r.spec_filter() is Omitted,
    {
        VectorStoreFileListParams::new()
    }
}

/// A search query: one text, or a non-empty list of texts.
#[derive(Clone, Debug)]
pub enum VectorStoreSearchQuery {
    Text(String),
    Texts(Vec<String>),
}

impl VectorStoreSearchQuery {
    /// A query of several texts; the list must not be empty.
    pub fn multiple(values: Vec<String>) -> (r: Result<Self, VectorStoreValidationError>)
        ensures
            values@.len() == 0 ==> r == Err::<Self, VectorStoreValidationError>(
                VectorStoreValidationError::EmptySearchQueries,
            ),
            values@.len() > 0 ==> r == Ok::<Self, VectorStoreValidationError>(
                VectorStoreSearchQuery::Texts(values),
            ),
    {
        if values.len() == 0 {
            return Err(VectorStoreValidationError::EmptySearchQueries);
        }
        Ok(VectorStoreSearchQuery::Texts(values))
    }

    /// A query of one text.
    pub fn text(value: &str) -> (r: Self)
        ensures
            r matches VectorStoreSearchQuery::Text(t) && t@ == value@,
    {
        VectorStoreSearchQuery::Text(value.to_owned())
    }
}

/// The search query as the service reports it back.
#[derive(Clone, Debug)]
pub enum VectorStoreSearchQueryOutput {
    Text(String),
    Texts(Vec<String>),
}

/// An equal copy of the stored pairs.
fn copy_string_pairs(v: &Vec<(String, String)>) -> (r: Vec<(String, String)>)
    ensures
        metadata_pairs(r@) == metadata_pairs(v@),
{
    let mut r: Vec<(String, String)> = Vec::new();
    let mut i: usize = 0;
    while i < v.len()
        invariant
            i <= v@.len(),
            r@.len() == i,
            forall|j: int| 0 <= j < i ==> (#[trigger] r@[j]).0@ == v@[j].0@ && r@[j].1@ == v@[j].1@,
        decreases v@.len() - i,
    {
        r.push((v[i].0.clone(), v[i].1.clone()));
        i = i + 1;
    }
    assert(metadata_pairs(r@) =~= metadata_pairs(v@));
    r
}

impl Clone for VectorStoreMetadata {
    /// An equal copy of the map.
    fn clone(&self) -> (r: Self)
        ensures
            r@ == self@,
    {
        proof {
            use_type_invariant(self);
        }
        VectorStoreMetadata { entries: copy_string_pairs(&self.entries) }
    }
}

impl Clone for VectorStoreExpirationAfter {
    /// An equal copy: the same anchor and period.
    fn clone(&self) -> (r: Self)
        ensures
            r == *self,
    {
        proof {
            use_type_invariant(self);
        }
        VectorStoreExpirationAfter { anchor: self.anchor.clone(), days: self.days }
    }
}

impl Clone for StaticChunkingStrategy {
    /// An equal copy.
    fn clone(&self) -> (r: Self)
        ensures
            r == *self,
    {
        proof {
            use_type_invariant(self);
        }
        StaticChunkingStrategy {
            max_chunk_size_tokens: self.max_chunk_size_tokens,
            chunk_overlap_tokens: self.chunk_overlap_tokens,
        }
    }
}

impl Clone for VectorStoreInitialFileIds {
    /// A copy holding the same IDs in the same order.
    fn clone(&self) -> (r: Self)
        ensures
            r@ == self@,
    {
        proof {
            use_type_invariant(self);
        }
        let ids = self.0.clone();
        proof {
            assert forall|i: int| 0 <= i < ids@.len() implies ids@[i] == self.0@[i] by {
                assert(cloned::<FileId>(self.0[i], ids[i]));
            }
            assert(ids@ =~= self.0@);
        }
        VectorStoreInitialFileIds(ids)
    }
}

impl Clone for VectorStoreBatchFileIds {
    /// A copy holding the same IDs in the same order.
    fn clone(&self) -> (r: Self)
        ensures
            r@ == self@,
    {
        proof {
            use_type_invariant(self);
        }
        let ids = self.0.clone();
        proof {
            assert forall|i: int| 0 <= i < ids@.len() implies ids@[i] == self.0@[i] by {
                assert(cloned::<FileId>(self.0[i], ids[i]));
            }
            assert(ids@ =~= self.0@);
        }
        VectorStoreBatchFileIds(ids)
    }
}


/// The documented limits of vector stores.
pub proof fn law_vector_store_limits()
    ensures
        MAX_VECTOR_STORE_PROPERTIES == 16,
        MAX_VECTOR_STORE_KEY_CHARS == 64,
        MAX_VECTOR_STORE_VALUE_CHARS == 512,
        MAX_VECTOR_STORE_INITIAL_FILES == 500,
        MAX_VECTOR_STORE_BATCH_FILES == 2000,
        MIN_STATIC_CHUNK_TOKENS == 100,
        MAX_STATIC_CHUNK_TOKENS == 4096,
        MIN_VECTOR_STORE_EXPIRATION_DAYS == 1,
        MAX_VECTOR_STORE_EXPIRATION_DAYS == 365,
        DEFAULT_VECTOR_STORE_LIST_LIMIT == 20,
        DEFAULT_VECTOR_STORE_SEARCH_RESULTS == 10,
        MAX_VECTOR_STORE_SEARCH_RESULTS == 50,
{
}

} // verus!
