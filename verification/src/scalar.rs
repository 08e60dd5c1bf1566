//! Scalar wire types: opaque identifiers and open model names.
use vstd::prelude::*;
use core::marker::PhantomData;
use crate::json::JsonValue;
use crate::text::chars_eq;

verus! {

/// Opaque identifier of a Responses API response.
#[derive(Debug, Clone)]
pub struct ResponseId(pub String);

impl View for ResponseId {
    type V = Seq<char>;

    open spec fn view(&self) -> Seq<char> {
        self.0@
    }
}

impl ResponseId {
    /// Creates an ID without imposing assumptions on its format.
    pub fn new(value: &str) -> (r: Self)
        ensures
            r@ == value@,
    {
        ResponseId(value.to_owned())
    }

    /// Borrows the opaque wire value.
    pub fn as_str(&self) -> (r: &str)
        ensures
            r@ == self@,
    {
        self.0.as_str()
    }

    /// Consumes the ID and returns its wire value.
    pub fn into_string(self) -> (r: String)
        ensures
            r@ == self@,
    {
        self.0
    }
}
/// Opaque identifier of an uploaded file.
#[derive(Debug)]
pub struct FileId(pub String);

impl Clone for FileId {
    /// An equal copy of the ID.
    fn clone(&self) -> (r: Self)
        ensures
            r == *self,
    {
        FileId(self.0.clone())
    }
}

impl View for FileId {
    type V = Seq<char>;

    open spec fn view(&self) -> Seq<char> {
        self.0@
    }
}

impl FileId {
    /// Creates an ID without imposing assumptions on its format.
    pub fn new(value: &str) -> (r: Self)
        ensures
            r@ == value@,
    {
        FileId(value.to_owned())
    }

    /// Borrows the opaque wire value.
    pub fn as_str(&self) -> (r: &str)
        ensures
            r@ == self@,
    {
        self.0.as_str()
    }

    /// Consumes the ID and returns its wire value.
    pub fn into_string(self) -> (r: String)
        ensures
            r@ == self@,
    {
        self.0
    }
}
/// Opaque identifier of a batch.
#[derive(Debug, Clone)]
pub struct BatchId(pub String);

impl View for BatchId {
    type V = Seq<char>;

    open spec fn view(&self) -> Seq<char> {
        self.0@
    }
}

impl BatchId {
    /// Creates an ID without imposing assumptions on its format.
    pub fn new(value: &str) -> (r: Self)
        ensures
            r@ == value@,
    {
        BatchId(value.to_owned())
    }

    /// Borrows the opaque wire value.
    pub fn as_str(&self) -> (r: &str)
        ensures
            r@ == self@,
    {
        self.0.as_str()
    }

    /// Consumes the ID and returns its wire value.
    pub fn into_string(self) -> (r: String)
        ensures
            r@ == self@,
    {
        self.0
    }
}
/// Opaque identifier of a multipart upload.
#[derive(Debug, Clone)]
pub struct UploadId(pub String);

impl View for UploadId {
    type V = Seq<char>;

    open spec fn view(&self) -> Seq<char> {
        self.0@
    }
}

impl UploadId {
    /// Creates an ID without imposing assumptions on its format.
    pub fn new(value: &str) -> (r: Self)
        ensures
            r@ == value@,
    {
        UploadId(value.to_owned())
    }

    /// Borrows the opaque wire value.
    pub fn as_str(&self) -> (r: &str)
        ensures
            r@ == self@,
    {
        self.0.as_str()
    }

    /// Consumes the ID and returns its wire value.
    pub fn into_string(self) -> (r: String)
        ensures
            r@ == self@,
    {
        self.0
    }
}
/// Opaque identifier of a vector store.
#[derive(Debug, Clone)]
pub struct VectorStoreId(pub String);

impl View for VectorStoreId {
    type V = Seq<char>;

    open spec fn view(&self) -> Seq<char> {
        self.0@
    }
}

impl VectorStoreId {
    /// Creates an ID without imposing assumptions on its format.
    pub fn new(value: &str) -> (r: Self)
        ensures
            r@ == value@,
    {
        VectorStoreId(value.to_owned())
    }

    /// Borrows the opaque wire value.
    pub fn as_str(&self) -> (r: &str)
        ensures
            r@ == self@,
    {
        self.0.as_str()
    }

    /// Consumes the ID and returns its wire value.
    pub fn into_string(self) -> (r: String)
        ensures
            r@ == self@,
    {
        self.0
    }
}
/// Opaque identifier of a fine-tuning job.
#[derive(Debug, Clone)]
pub struct FineTuningJobId(pub String);

impl View for FineTuningJobId {
    type V = Seq<char>;

    open spec fn view(&self) -> Seq<char> {
        self.0@
    }
}

impl FineTuningJobId {
    /// Creates an ID without imposing assumptions on its format.
    pub fn new(value: &str) -> (r: Self)
        ensures
            r@ == value@,
    {
        FineTuningJobId(value.to_owned())
    }

    /// Borrows the opaque wire value.
    pub fn as_str(&self) -> (r: &str)
        ensures
            r@ == self@,
    {
        self.0.as_str()
    }

    /// Consumes the ID and returns its wire value.
    pub fn into_string(self) -> (r: String)
        ensures
            r@ == self@,
    {
        self.0
    }
}

/// An open model identifier.  The named snapshots are conveniences, not a
/// closed list: any model name can be built with [`ModelId::new`].
#[derive(Debug, Clone)]
pub struct ModelId(String);

impl View for ModelId {
    type V = Seq<char>;

    closed spec fn view(&self) -> Seq<char> {
        self.0@
    }
}

impl ModelId {
    /// GPT-5.6 Sol snapshot, `gpt-5.6-sol`.
    pub fn gpt_5_6_sol() -> (r: Self)
        ensures
            r@ == "gpt-5.6-sol"@,
    {
        ModelId::from_static("gpt-5.6-sol")
    }

    /// GPT-5.6 Terra snapshot, `gpt-5.6-terra`.
    pub fn gpt_5_6_terra() -> (r: Self)
        ensures
            r@ == "gpt-5.6-terra"@,
    {
        ModelId::from_static("gpt-5.6-terra")
    }

    /// GPT-5.6 Luna snapshot, `gpt-5.6-luna`.
    pub fn gpt_5_6_luna() -> (r: Self)
        ensures
            r@ == "gpt-5.6-luna"@,
    {
        ModelId::from_static("gpt-5.6-luna")
    }

    /// GPT-5.6 Cyber snapshot, `gpt-5.6-cyber` (Responses only).
    pub fn gpt_5_6_cyber() -> (r: Self)
        ensures
            r@ == "gpt-5.6-cyber"@,
    {
        ModelId::from_static("gpt-5.6-cyber")
    }

    /// An open model ID from an owned name.
    pub fn new(value: String) -> (r: Self)
        ensures
            r@ == value@,
    {
        ModelId(value)
    }

    /// A model ID from a static name.
    pub fn from_static(value: &'static str) -> (r: Self)
        ensures
            r@ == value@,
    {
        ModelId(value.to_owned())
    }

    /// The exact model name used on the wire.
    pub fn as_str(&self) -> (r: &str)
        ensures
            r@ == self@,
    {
        self.0.as_str()
    }

    /// The model name as an owned string.
    pub fn into_string(self) -> (r: String)
        ensures
            r@ == self@,
    {
        self.0
    }
}


/// JSON text carried inside a JSON string field, kept exactly as received
/// and not parsed; `T` is the type it is meant to parse as.
#[derive(Debug)]
pub struct JsonText<T = JsonValue> {
    raw: String,
    marker: PhantomData<T>,
}

impl<T> View for JsonText<T> {
    type V = Seq<char>;

    closed spec fn view(&self) -> Seq<char> {
        self.raw@
    }
}

impl<T> JsonText<T> {
    /// Keeps `raw` without checking what it holds.
    pub fn from_raw(raw: &str) -> (r: Self)
        ensures
            r@ == raw@,
    {
        JsonText { raw: raw.to_owned(), marker: PhantomData }
    }

    /// The exact text.
    pub fn as_raw(&self) -> (r: &str)
        ensures
            r@ == self@,
    {
        self.raw.as_str()
    }

    /// The exact text.
    pub fn as_str(&self) -> (r: &str)
        ensures
            r@ == self@,
    {
        self.raw.as_str()
    }

    /// Gives back the text.
    pub fn into_raw(self) -> (r: String)
        ensures
            r@ == self@,
    {
        self.raw
    }

    /// Changes only the type the text is meant to parse as.
    pub fn cast<U>(self) -> (r: JsonText<U>)
        ensures
            r@ == self@,
    {
        JsonText { raw: self.raw, marker: PhantomData }
    }

    /// A copy of the text.
    pub fn duplicate(&self) -> (r: Self)
        ensures
            r@ == self@,
    {
        JsonText { raw: self.raw.clone(), marker: PhantomData }
    }
}

} // verus!
