//! A text that is kept away from logs and printing and is wiped from memory
//! when it is dropped.

use secrecy::ExposeSecret;
use secrecy::SecretBox;
use vstd::prelude::*;

verus! {

/// A text inside a `secrecy::SecretBox<str>`. Its `Debug` output is redacted,
/// and dropping it overwrites the text.
#[verifier::external_body]
#[derive(Debug)]
pub struct SecretText {
    inner: SecretBox<str>,
}

/// The text that a `SecretText` holds.
pub uninterp spec fn secret_text(s: SecretText) -> Seq<char>;

impl SecretText {
    /// Puts `text` into a secret box: `SecretBox::<str>::from` of the crate
    /// `secrecy` moves the string's characters into the box unchanged.
    #[verifier::external_body]
    pub(crate) fn seal(text: String) -> (s: SecretText)
        ensures
            secret_text(s) == text@,
    {
        SecretText { inner: SecretBox::from(text) }
    }

    /// `ExposeSecret::expose_secret` of the crate `secrecy`: a reference to the
    /// text in the box.
    #[verifier::external_body]
    pub(crate) fn expose(&self) -> (text: &str)
        ensures
            text@ == secret_text(*self),
    {
        self.inner.expose_secret()
    }

    /// `Clone::clone` of `secrecy::SecretBox<str>`: a second box with a copy of
    /// the text.
    #[verifier::external_body]
    pub(crate) fn duplicate(&self) -> (copy: SecretText)
        ensures
            secret_text(copy) == secret_text(*self),
    {
        SecretText { inner: self.inner.clone() }
    }
}

} // verus!
