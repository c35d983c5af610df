//! File identifiers: the alphabet they are drawn from, how they are generated
//! and how a path segment is checked against their format.

use rand::Rng;
use vstd::prelude::*;
use vstd::string::*;

verus! {

/// Number of characters in every file identifier.
pub const ID_LEN: usize = 20;

/// An ASCII letter or digit: the alphabet of generated identifiers.
pub open spec fn is_alphanumeric(c: char) -> bool {
    ||| 'A' <= c <= 'Z'
    ||| 'a' <= c <= 'z'
    ||| '0' <= c <= '9'
}

/// A character that may occur in an identifier taken from a request path:
/// an ASCII letter, an ASCII digit or the underscore.
pub open spec fn is_word_char(c: char) -> bool {
    is_alphanumeric(c) || c == '_'
}

/// The format that names a stored file: exactly [`ID_LEN`] word characters.
pub open spec fn is_identifier(s: Seq<char>) -> bool {
    &&& s.len() == ID_LEN
    &&& forall|i: int| 0 <= i < s.len() ==> is_word_char(#[trigger] s[i])
}

/// The narrower format of identifiers that [`generate`] hands out: exactly
/// [`ID_LEN`] ASCII letters and digits.
pub open spec fn is_generated(s: Seq<char>) -> bool {
    &&& s.len() == ID_LEN
    &&& forall|i: int| 0 <= i < s.len() ==> is_alphanumeric(#[trigger] s[i])
}

/// Executable test for [`is_word_char`].
pub fn is_word(c: char) -> (r: bool)
    ensures
        r == is_word_char(c),
{
    ('A' <= c && c <= 'Z') || ('a' <= c && c <= 'z') || ('0' <= c && c <= '9') || c == '_'
}

/// Checks a path segment against the identifier format. The segment comes
/// back unchanged when it is an identifier; anything else is no match.
pub fn validate(segment: &str) -> (r: Option<String>)
    ensures
        match r {
            Some(name) => is_identifier(segment@) && name@ == segment@,
            None => !is_identifier(segment@),
        },
{
    if segment.unicode_len() != ID_LEN {
        return None;
    }
    let mut i: usize = 0;
    while i < ID_LEN
        invariant
            i <= ID_LEN,
            segment@.len() == ID_LEN,
            forall|j: int| 0 <= j < i ==> is_word_char(#[trigger] segment@[j]),
        decreases ID_LEN - i,
    {
        if !is_word(segment.get_char(i)) {
            return None;
        }
        i += 1;
    }
    Some(segment.to_owned())
}

/// `rand::distributions::Alphanumeric`, sampled once from `rand::thread_rng()`.
/// The distribution draws from the ASCII letters and digits, and that range is
/// all this contract claims: which character comes back is left open, and two
/// calls need not agree. The generator belongs to the calling thread and is
/// seeded by the system on first use; that the system can seed it is taken
/// for granted.
#[verifier::external_body]
fn sample_alphanumeric() -> (c: char)
    ensures
        is_alphanumeric(c),
{
    rand::thread_rng().sample(rand::distributions::Alphanumeric)
}

/// `String::push` of std: the character is appended at the end, and the
/// characters before it stay as they were.
pub assume_specification[ String::push ](s: &mut String, c: char)
    ensures
        final(s)@ == old(s)@.push(c),
;

/// Draws a new file identifier: [`ID_LEN`] characters, each sampled on its own
/// from the ASCII letters and digits. Nothing is checked against the names
/// already in use.
pub fn generate() -> (name: String)
    ensures
        is_generated(name@),
{
    let mut name = String::new();
    let mut i: usize = 0;
    while i < ID_LEN
        invariant
            i <= ID_LEN,
            name@.len() == i,
            forall|j: int| 0 <= j < i ==> is_alphanumeric(#[trigger] name@[j]),
        decreases ID_LEN - i,
    {
        let c = sample_alphanumeric();
        name.push(c);
        i += 1;
    }
    name
}

/// Every generated identifier has the format that a download accepts.
pub proof fn lemma_generated_is_identifier(s: Seq<char>)
    requires
        is_generated(s),
    ensures
        is_identifier(s),
{
}

/// No identifier holds a path separator or a dot, so joining one to the
/// storage root can never name a file outside of it.
pub proof fn lemma_identifier_is_plain_name(s: Seq<char>)
    requires
        is_identifier(s),
    ensures
        forall|i: int| 0 <= i < s.len() ==> s[i] != '/' && s[i] != '\\' && s[i] != '.',
{
}

} // verus!
