//! Secret-bearing strings whose `Debug` output never shows them.
use vstd::prelude::*;

verus! {

/// Text kept inside a `secrecy::SecretString` (`SecretBox<str>`), which
/// zeroizes it on drop and prints it as `[REDACTED]`; the box is reached
/// only through the functions below.
#[verifier::external_body]
#[derive(Debug)]
pub struct SealedText {
    inner: secrecy::SecretString,
}

/// The text that a [`SealedText`] holds.
pub uninterp spec fn sealed_text(t: SealedText) -> Seq<char>;

/// Moves the string into a `secrecy::SecretString` (`From<String>`); the box
/// holds exactly `value`.
#[verifier::external_body]
pub(crate) fn seal_text(value: String) -> (r: SealedText)
    ensures
        sealed_text(r) == value@,
{
    SealedText { inner: secrecy::SecretString::from(value) }
}

/// Reads the text held by the `secrecy::SecretString`
/// (`ExposeSecret::expose_secret`): it is the text the box was made with.
#[verifier::external_body]
pub(crate) fn expose_text(t: &SealedText) -> (r: &str)
    ensures
        r@ == sealed_text(*t),
{
    secrecy::ExposeSecret::expose_secret(&t.inner)
}

/// Copies the box (`Clone for SecretString`); the copy holds the same text.
#[verifier::external_body]
pub(crate) fn copy_text(t: &SealedText) -> (r: SealedText)
    ensures
        sealed_text(r) == sealed_text(*t),
{
    SealedText { inner: t.inner.clone() }
}

/// An authentication secret, such as an API key or an access token.
#[derive(Clone, Debug)]
pub struct Secret(SealedText);

impl View for Secret {
    type V = Seq<char>;

    closed spec fn view(&self) -> Seq<char> {
        sealed_text(self.0)
    }
}

impl Secret {
    /// Moves an owned secret string into zeroizing storage.
    pub fn new(value: String) -> (r: Self)
        ensures
            r@ == value@,
    {
        Secret(seal_text(value))
    }

    /// Borrows the secret for the duration of one explicit operation.
    pub fn with_exposed<R, F: FnOnce(&str) -> R>(&self, operation: F) -> (r: R)
        requires
            forall|s: &str| s@ == self@ ==> operation.requires((s,)),
        ensures
            exists|s: &str| s@ == self@ && operation.ensures((s,), r),
    {
        let s = expose_text(&self.0);
        operation(s)
    }

    /// Whether the secret is empty, without exposing it.
    pub fn is_empty(&self) -> (r: bool)
        ensures
            r == (self@.len() == 0),
    {
        expose_text(&self.0).is_empty()
    }

    /// A copy of the secret.
    pub fn duplicate(&self) -> (r: Self)
        ensures
            r@ == self@,
    {
        Secret(copy_text(&self.0))
    }
}

/// A secret that the wire protocol places in a JSON body, such as an MCP
/// authorization value.
#[derive(Clone, Debug)]
pub struct WireSecret(SealedText);

impl View for WireSecret {
    type V = Seq<char>;

    closed spec fn view(&self) -> Seq<char> {
        sealed_text(self.0)
    }
}

impl WireSecret {
    /// Moves an owned protocol secret into zeroizing storage.
    pub fn new(value: String) -> (r: Self)
        ensures
            r@ == value@,
    {
        WireSecret(seal_text(value))
    }

    /// Borrows the secret for a narrowly scoped protocol operation.
    pub fn with_exposed<R, F: FnOnce(&str) -> R>(&self, operation: F) -> (r: R)
        requires
            forall|s: &str| s@ == self@ ==> operation.requires((s,)),
        ensures
            exists|s: &str| s@ == self@ && operation.ensures((s,), r),
    {
        let s = expose_text(&self.0);
        operation(s)
    }

    /// Whether the secret is empty, without exposing it.
    pub fn is_empty(&self) -> (r: bool)
        ensures
            r == (self@.len() == 0),
    {
        expose_text(&self.0).is_empty()
    }

    /// A copy of the secret.
    pub fn duplicate(&self) -> (r: Self)
        ensures
            r@ == self@,
    {
        WireSecret(copy_text(&self.0))
    }
}

impl Clone for SealedText {
    /// A box holding the same text.
    fn clone(&self) -> (r: Self)
        ensures
            sealed_text(r) == sealed_text(*self),
    {
        copy_text(self)
    }
}

} // verus!
