//! Random choices, which the crates `rand` and `uuid` make.

use rand::Rng;
use vstd::prelude::*;

verus! {

/// Whether `c` is an ASCII letter or digit.
pub open spec fn is_alphanumeric(c: char) -> bool {
    ('A' <= c && c <= 'Z') || ('a' <= c && c <= 'z') || ('0' <= c && c <= '9')
}

/// Whether `c` is a lower-case hexadecimal digit.
pub open spec fn is_hex_digit(c: char) -> bool {
    ('0' <= c && c <= '9') || ('a' <= c && c <= 'f')
}

/// Whether `s` is the text of a random UUID: groups of 8, 4, 4, 4 and 12 lower-case hexadecimal
/// digits between hyphens, with version digit 4 and a variant digit from 8 to b.
pub open spec fn is_random_uuid(s: Seq<char>) -> bool {
    &&& s.len() == 36
    &&& s[8] == '-' && s[13] == '-' && s[18] == '-' && s[23] == '-'
    &&& forall|i: int|
        0 <= i < 36 && i != 8 && i != 13 && i != 18 && i != 23 ==> is_hex_digit(#[trigger] s[i])
    &&& s[14] == '4'
    &&& s[19] == '8' || s[19] == '9' || s[19] == 'a' || s[19] == 'b'
}

/// The numbers from `low` to `high`.
#[derive(Clone, Copy, Debug, PartialEq, Eq, Structural)]
pub struct Span {
    pub low: i32,
    pub high: i32,
}

/// A random number with the span that it was drawn from: values of this type come from
/// `gen_range` alone, one for each call.
pub struct Draw {
    span: Span,
    number: i32,
}

impl Draw {
    /// The span that the number was drawn from.
    pub closed spec fn span(self) -> Span {
        self.span
    }

    /// The number drawn.
    pub closed spec fn number(self) -> i32 {
        self.number
    }

    /// Whether the number was drawn from this span, and so lies in it.
    pub open spec fn is_from(self, span: Span) -> bool {
        &&& self.span() == span
        &&& span.low <= self.number() <= span.high
    }

    /// The number drawn.
    pub fn get(&self) -> (number: i32)
        ensures
            number == self.number(),
    {
        self.number
    }
}

/// Draws a random number from the span.
///
/// Calls `rand::Rng::gen_range` on the thread's generator with the span's numbers. Trusted: the
/// number drawn lies in the span. Nothing is said of how likely each number is.
#[verifier::external_body]
pub(crate) fn gen_range(span: Span) -> (draw: Draw)
    requires
        span.low <= span.high,
    ensures
        draw.is_from(span),
{
    Draw { span, number: rand::thread_rng().gen_range(span.low..=span.high) }
}

/// A random character: values of this type come from `sample_alphanumeric` alone, one for each
/// call.
pub struct RandomChar {
    character: char,
}

impl RandomChar {
    /// The character drawn.
    pub closed spec fn character(self) -> char {
        self.character
    }

    /// The character drawn.
    pub fn get(&self) -> (c: char)
        ensures
            c == self.character(),
    {
        self.character
    }
}

/// A random ASCII letter or digit.
///
/// Calls `rand::Rng::sample` with `rand::distributions::Alphanumeric` on the thread's generator.
/// Trusted: the character is a letter or a digit. Nothing is said of how likely each one is.
#[verifier::external_body]
pub(crate) fn sample_alphanumeric() -> (drawn: RandomChar)
    ensures
        is_alphanumeric(drawn.character()),
{
    RandomChar {
        character: char::from(rand::thread_rng().sample(rand::distributions::Alphanumeric)),
    }
}

/// The text of a random UUID: values of this type come from `new_uuid` alone, one for each call.
pub struct RandomUuid {
    text: String,
}

impl RandomUuid {
    /// The text.
    pub closed spec fn text(self) -> Seq<char> {
        self.text@
    }

    /// The text.
    pub fn into_text(self) -> (text: String)
        ensures
            text@ == self.text(),
    {
        self.text
    }
}

/// Whether `s` is the text of a random UUID that was drawn.
pub open spec fn is_drawn_uuid(s: Seq<char>) -> bool {
    &&& is_random_uuid(s)
    &&& exists|id: RandomUuid| #[trigger] id.text() == s
}

/// A fresh random UUID.
///
/// Calls `uuid::Uuid::new_v4`. Trusted: the text has the form of a version 4 UUID. That two
/// texts differ is likely, not certain, and is not claimed.
#[verifier::external_body]
pub(crate) fn new_uuid() -> (id: RandomUuid)
    ensures
        is_random_uuid(id.text()),
{
    RandomUuid { text: uuid::Uuid::new_v4().to_string() }
}

} // verus!
