//! Multipart upload sources and downloaded file contents.
use vstd::prelude::*;

verus! {

/// Bytes kept inside a `secrecy::SecretBox<[u8]>`, whose `Debug` output
/// never shows them; the box is reached only through the functions below.
#[verifier::external_body]
#[derive(Debug)]
pub struct SealedBytes {
    inner: secrecy::SecretBox<[u8]>,
}

/// The bytes that a [`SealedBytes`] holds.
pub uninterp spec fn sealed_bytes(b: SealedBytes) -> Seq<u8>;

/// Moves the bytes into a `secrecy::SecretBox` (`SecretBox::new`); the box
/// holds exactly `bytes`.
#[verifier::external_body]
fn seal_bytes(bytes: Box<[u8]>) -> (r: SealedBytes)
    ensures
        sealed_bytes(r) == bytes@,
{
    SealedBytes { inner: secrecy::SecretBox::new(bytes) }
}

/// Reads the bytes held by the `secrecy::SecretBox`
/// (`ExposeSecret::expose_secret`): they are the bytes it was made with.
#[verifier::external_body]
fn expose_bytes(b: &SealedBytes) -> (r: &[u8])
    ensures
        r@ == sealed_bytes(*b),
{
    secrecy::ExposeSecret::expose_secret(&b.inner)
}

/// Copies the box (`Clone for SecretSlice<u8>`); the copy holds the same bytes.
#[verifier::external_body]
fn copy_bytes(b: &SealedBytes) -> (r: SealedBytes)
    ensures
        sealed_bytes(r) == sealed_bytes(*b),
{
    SealedBytes { inner: b.inner.clone() }
}

/// Raw downloaded file bytes; their `Debug` output shows the length only.
#[derive(Clone, Debug)]
pub struct FileContent {
    len: usize,
    bytes: SealedBytes,
}

impl View for FileContent {
    type V = Seq<u8>;

    closed spec fn view(&self) -> Seq<u8> {
        sealed_bytes(self.bytes)
    }
}

impl FileContent {
    /// Takes ownership of downloaded bytes.
    pub fn new(bytes: Box<[u8]>) -> (r: Self)
        ensures
            r@ == bytes@,
    {
        let len = bytes.len();
        FileContent { len, bytes: seal_bytes(bytes) }
    }

    /// The bytes, exactly as downloaded.
    pub fn as_bytes(&self) -> (r: &[u8])
        ensures
            r@ == self@,
    {
        expose_bytes(&self.bytes)
    }

    /// Number of bytes.
    pub fn len(&self) -> (r: usize)
        ensures
            r == self@.len(),
    {
        expose_bytes(&self.bytes).len()
    }

    /// Whether there are no bytes.
    pub fn is_empty(&self) -> (r: bool)
        ensures
            r == (self@.len() == 0),
    {
        self.len() == 0
    }
}

/// Where the bytes of a multipart upload come from.
#[derive(Clone, Debug)]
pub enum MultipartBody {
    /// Bytes already in memory; their `Debug` output never shows them.
    Bytes(SealedBytes),
    /// A file read when the request is sent.
    Path(String),
}

/// A multipart upload part that can be sent again on retry.
#[derive(Clone, Debug)]
pub struct ReplayableMultipartSource {
    body: MultipartBody,
    file_name: Option<String>,
    media_type: Option<String>,
}

impl ReplayableMultipartSource {
    /// The in-memory bytes, when the bytes are in memory.
    pub closed spec fn spec_bytes(&self) -> Option<Seq<u8>> {
        match self.body {
            MultipartBody::Bytes(b) => Some(sealed_bytes(b)),
            MultipartBody::Path(_) => None,
        }
    }

    /// The path of the file, when the bytes come from a file.
    pub closed spec fn spec_path(&self) -> Option<Seq<char>> {
        match self.body {
            MultipartBody::Bytes(_) => None,
            MultipartBody::Path(p) => Some(p@),
        }
    }

    /// The declared MIME type.
    pub closed spec fn spec_media_type(&self) -> Option<Seq<char>> {
        match self.media_type {
            Some(m) => Some(m@),
            None => None,
        }
    }

    /// The declared file name.
    pub closed spec fn spec_file_name(&self) -> Option<Seq<char>> {
        match self.file_name {
            Some(m) => Some(m@),
            None => None,
        }
    }

    /// A part made of in-memory bytes, without file name or MIME type.
    pub fn from_bytes(bytes: Box<[u8]>) -> (r: Self)
        ensures
            r.spec_bytes() == Some(bytes@),
            r.spec_path() is None,
            r.spec_media_type() is None,
            r.spec_file_name() is None,
    {
        ReplayableMultipartSource {
            body: MultipartBody::Bytes(seal_bytes(bytes)),
            file_name: None,
            media_type: None,
        }
    }

    /// A part read from the file at `path` when the request is sent.
    pub fn from_path(path: &str) -> (r: Self)
        ensures
            r.spec_bytes() is None,
            r.spec_path() == Some(path@),
            r.spec_media_type() is None,
            r.spec_file_name() is None,
    {
        ReplayableMultipartSource {
            body: MultipartBody::Path(path.to_owned()),
            file_name: None,
            media_type: None,
        }
    }

    /// Declares the MIME type of the part.
    pub fn with_media_type(self, media_type: &str) -> (r: Self)
        ensures
            r.spec_media_type() == Some(media_type@),
            r.spec_bytes() == self.spec_bytes(),
            r.spec_path() == self.spec_path(),
            r.spec_file_name() == self.spec_file_name(),
    {
        ReplayableMultipartSource { media_type: Some(media_type.to_owned()), ..self }
    }

    /// Declares the file name of the part.
    pub fn with_file_name(self, file_name: &str) -> (r: Self)
        ensures
            r.spec_file_name() == Some(file_name@),
            r.spec_bytes() == self.spec_bytes(),
            r.spec_path() == self.spec_path(),
            r.spec_media_type() == self.spec_media_type(),
    {
        ReplayableMultipartSource { file_name: Some(file_name.to_owned()), ..self }
    }

    /// A copy of the part, to send it again.
    pub fn duplicate(&self) -> (r: Self)
        ensures
            r.spec_bytes() == self.spec_bytes(),
            r.spec_path() == self.spec_path(),
            r.spec_media_type() == self.spec_media_type(),
            r.spec_file_name() == self.spec_file_name(),
    {
        let body = match &self.body {
            MultipartBody::Bytes(b) => MultipartBody::Bytes(copy_bytes(b)),
            MultipartBody::Path(p) => MultipartBody::Path(p.clone()),
        };
        let file_name = match &self.file_name {
            Some(f) => Some(f.clone()),
            None => None,
        };
        let media_type = match &self.media_type {
            Some(m) => Some(m.clone()),
            None => None,
        };
        ReplayableMultipartSource { body, file_name, media_type }
    }

    /// The declared MIME type.
    pub fn media_type(&self) -> (r: Option<&str>)
        ensures
            match r {
                Some(m) => self.spec_media_type() == Some(m@),
                None => self.spec_media_type() is None,
            },
    {
        match &self.media_type {
            Some(m) => Some(m.as_str()),
            None => None,
        }
    }

    /// The declared file name.
    pub fn file_name(&self) -> (r: Option<&str>)
        ensures
            match r {
                Some(m) => self.spec_file_name() == Some(m@),
                None => self.spec_file_name() is None,
            },
    {
        match &self.file_name {
            Some(m) => Some(m.as_str()),
            None => None,
        }
    }

    /// The bytes, when they are in memory.
    pub fn as_bytes(&self) -> (r: Option<&[u8]>)
        ensures
            match r {
                Some(b) => self.spec_bytes() == Some(b@),
                None => self.spec_bytes() is None,
            },
    {
        match &self.body {
            MultipartBody::Bytes(b) => Some(expose_bytes(b)),
            MultipartBody::Path(_) => None,
        }
    }

    /// The path of the file, when the bytes come from a file.
    pub fn path(&self) -> (r: Option<&str>)
        ensures
            match r {
                Some(p) => self.spec_path() == Some(p@),
                None => self.spec_path() is None,
            },
    {
        match &self.body {
            MultipartBody::Bytes(_) => None,
            MultipartBody::Path(p) => Some(p.as_str()),
        }
    }
}

impl Clone for SealedBytes {
    /// A box holding the same bytes.
    fn clone(&self) -> (r: Self)
        ensures
            sealed_bytes(r) == sealed_bytes(*self),
    {
        copy_bytes(self)
    }
}

} // verus!
