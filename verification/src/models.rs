//! The secret-bearing resources managed by the store: an opaque [`Secret`]
//! wrapper whose rendered form never discloses the wrapped value, and a
//! [`Model`] that names a secret and carries a version.

use vstd::prelude::*;

use crate::error::{Error, ErrorKind};

verus! {

/// An opaque wrapper around a sensitive string.
///
/// The wrapped value is reachable only through the explicit [`Secret::value`]
/// accessor; every rendering path goes through [`Secret::display_text`],
/// which returns a fixed placeholder whatever the value is.
pub struct Secret(String);

impl View for Secret {
    type V = Seq<char>;

    closed spec fn view(&self) -> Seq<char> {
        self.0@
    }
}

/// What any rendering of a secret shows. The definition ignores the secret,
/// so the rendered text carries no information about the wrapped value.
pub open spec fn secret_rendered(s: Secret) -> Seq<char> {
    "Secret"@
}

impl Secret {
    /// The wrapped sensitive value; the only way to read it back.
    pub fn value(&self) -> (r: &str)
        ensures
            r@ == self@,
    {
        self.0.as_str()
    }

    /// The placeholder shown in place of the value by any rendering.
    pub fn display_text(&self) -> (r: String)
        ensures
            r@ == secret_rendered(*self),
    {
        String::from_str("Secret")
    }
}

impl Clone for Secret {
    fn clone(&self) -> (r: Self)
        ensures
            r@ == self@,
    {
        Secret(self.0.clone())
    }
}

impl From<String> for Secret {
    fn from(value: String) -> (r: Secret) {
        Secret(value)
    }
}

impl vstd::std_specs::convert::FromSpecImpl<String> for Secret {
    open spec fn obeys_from_spec() -> bool {
        true
    }

    closed spec fn from_spec(value: String) -> Secret {
        Secret(value)
    }
}

/// What converting a string into a secret yields: a secret wrapping exactly
/// that string.
pub proof fn lemma_secret_from_string(value: String)
    ensures
        (<Secret as vstd::std_specs::convert::FromSpec<String>>::from_spec(value))@ == value@,
{
}

/// Rendering a secret shows the same fixed text whatever value it wraps:
/// no two secrets can be told apart by their rendered form, so the form
/// discloses nothing about the value.
pub proof fn lemma_secret_rendering_reveals_nothing(a: Secret, b: Secret)
    ensures
        secret_rendered(a) == secret_rendered(b),
{
}

/// Whether `needle` occurs as a contiguous run inside `hay`.
pub open spec fn occurs_in(needle: Seq<char>, hay: Seq<char>) -> bool {
    exists|i: int|
        0 <= i && i + needle.len() <= hay.len() && #[trigger] hay.subrange(i, i + needle.len())
            == needle
}

/// The rendered form of a secret never contains the wrapped value, for any
/// value that is not itself a fragment of the fixed placeholder text.
pub proof fn lemma_secret_value_not_rendered(s: Secret)
    requires
        !occurs_in(s@, "Secret"@),
    ensures
        !occurs_in(s@, secret_rendered(s)),
{
}

/// The mathematical content of a [`Model`]: each field read back as a plain
/// value.
pub ghost struct ModelView {
    pub name: Option<Seq<char>>,
    pub secret: Option<Seq<char>>,
    pub version: Option<u32>,
}

/// A named secret-bearing resource. A model handed to the store-mutating
/// operation must have a present `name`; absence is a client error, never a
/// panic.
pub struct Model {
    pub name: Option<String>,
    pub secret: Option<Secret>,
    pub version: Option<u32>,
}

impl View for Model {
    type V = ModelView;

    open spec fn view(&self) -> ModelView {
        ModelView {
            name: match self.name {
                Some(n) => Some(n@),
                None => None,
            },
            secret: match self.secret {
                Some(s) => Some(s@),
                None => None,
            },
            version: self.version,
        }
    }
}

/// The version a model reports before an increment: an absent version
/// counts as zero.
pub open spec fn version_or_zero(v: Option<u32>) -> u32 {
    match v {
        Some(n) => n,
        None => 0,
    }
}

/// What rotating a model does to its content: the secret is replaced, the
/// version incremented by exactly one, and the name kept.
pub open spec fn rotated(v: ModelView, secret: Seq<char>) -> ModelView {
    ModelView { name: v.name, secret: Some(secret), version: Some(
        (version_or_zero(v.version) + 1) as u32,
    ) }
}

impl Model {
    /// A newly constructed resource: named, holding `secret`, at version 1.
    pub fn new(name: &str, secret: &str) -> (r: Self)
        ensures
            r@ == (ModelView { name: Some(name@), secret: Some(secret@), version: Some(1u32) }),
    {
        Model {
            name: Some(name.to_owned()),
            secret: Some(Secret(secret.to_owned())),
            version: Some(1),
        }
    }

    /// Replaces the secret and increments the version by exactly one,
    /// treating an absent version as 0 before incrementing.
    pub fn rotate(&mut self, secret: Secret)
        requires
            version_or_zero(old(self)@.version) < u32::MAX,
        ensures
            final(self)@ == rotated(old(self)@, secret@),
    {
        self.secret = Some(secret);
        self.version = Some(match self.version {
            Some(n) => n + 1,
            None => 1,
        });
    }
}

impl Clone for Model {
    fn clone(&self) -> (r: Self)
        ensures
            r@ == self@,
    {
        Model {
            name: match &self.name {
                Some(n) => Some(n.clone()),
                None => None,
            },
            secret: match &self.secret {
                Some(s) => Some(s.clone()),
                None => None,
            },
            version: self.version,
        }
    }
}

/// Rotating twice in sequence raises the version to the original plus two
/// (an absent original version counting as zero), and the final secret is
/// the one given last.
pub proof fn lemma_rotate_twice(v: ModelView, s1: Seq<char>, s2: Seq<char>)
    requires
        version_or_zero(v.version) + 2 <= u32::MAX,
    ensures
        rotated(rotated(v, s1), s2).version == Some((version_or_zero(v.version) + 2) as u32),
        rotated(rotated(v, s1), s2).secret == Some(s2),
        rotated(rotated(v, s1), s2).name == v.name,
{
}

/// Validates a raw secret argument on behalf of callers that collect one
/// from outside: the only guaranteed invariant is non-emptiness.
pub fn parse_secret(raw: &str) -> (r: Result<Secret, Error>)
    ensures
        raw@.len() > 0 ==> (r matches Ok(s) && s@ == raw@),
        raw@.len() == 0 ==> (r matches Err(e) && e.spec_kind() == ErrorKind::Conversion),
{
    if raw.is_empty() {
        Err(Error::with_message(ErrorKind::Conversion, String::from_str("empty secret")))
    } else {
        Ok(Secret(raw.to_owned()))
    }
}

} // verus!
