//! The syntax of identifiers.

use crate::text::{blank, contains_char, is_blank};
use vstd::prelude::*;

verus! {

/// The pattern of a valid identifier: letters, digits and a few marks.
pub const VALID_ID_PATTERN: &'static str = r"^[a-zA-Z0-9\._\+\-\#\[\]<>]+$";

/// The character that separates identifiers in a path.
pub const SEPARATOR: char = '/';

/// Least length of a client identifier, in bytes.
pub const CLIENT_ID_MIN_LENGTH: usize = 9;

/// Greatest length of a client identifier, in bytes.
pub const CLIENT_ID_MAX_LENGTH: usize = 64;

/// The rule that an identifier breaks.
#[derive(Clone, Debug, PartialEq, Eq)]
pub enum IdentifierValidationError {
    /// Nothing but whitespace.
    BlankIdentifier,
    /// The separator `/` occurs.
    CannotContainSeparator,
    /// A character occurs that the pattern does not allow.
    InvalidChars,
    /// The identifier is `len` bytes long, which is not between `min` and
    /// `max`.
    InvalidLength { len: usize, min: usize, max: usize },
}

/// Whether a character may stand in an identifier: a letter or a digit of
/// ASCII, or one of the marks `.`, `_`, `+`, `-`, `#`, `[`, `]`, `<`, `>`.
pub open spec fn is_identifier_char(c: char) -> bool {
    ||| 'a' as u32 <= c as u32 <= 'z' as u32
    ||| 'A' as u32 <= c as u32 <= 'Z' as u32
    ||| '0' as u32 <= c as u32 <= '9' as u32
    ||| c == '.'
    ||| c == '_'
    ||| c == '+'
    ||| c == '-'
    ||| c == '#'
    ||| c == '['
    ||| c == ']'
    ||| c == '<'
    ||| c == '>'
}

/// Whether a string is made of identifier characters, and of one at least.
pub open spec fn is_identifier_text(s: Seq<char>) -> bool {
    s.len() > 0 && forall|i: int| 0 <= i < s.len() ==> is_identifier_char(#[trigger] s[i])
}

/// The length of a string in bytes, which is how `str::len` counts.
pub open spec fn byte_length(s: Seq<char>) -> nat {
    vstd::utf8::encode_utf8(s).len()
}

/// The rule that an identifier breaks, or `None` where it breaks none: it is
/// not blank, holds no separator, is between `min` and `max` bytes long, and
/// is made of identifier characters.
pub open spec fn identifier_error(id: Seq<char>, min: usize, max: usize) -> Option<
    IdentifierValidationError,
> {
    if is_blank(id) {
        Some(IdentifierValidationError::BlankIdentifier)
    } else if id.contains(SEPARATOR) {
        Some(IdentifierValidationError::CannotContainSeparator)
    } else if byte_length(id) < min || byte_length(id) > max {
        Some(IdentifierValidationError::InvalidLength { len: byte_length(id) as usize, min, max })
    } else if !is_identifier_text(id) {
        Some(IdentifierValidationError::InvalidChars)
    } else {
        None
    }
}

/// Compiles `pattern` with `regex::Regex::new` and asks `Regex::is_match` of
/// `text`; a pattern that does not compile gives `None`.
///
/// The contract speaks of one pattern only, `VALID_ID_PATTERN`: a character
/// class between the anchors `^` and `$`, repeated with `+`. That pattern
/// compiles, and it matches exactly the strings that hold one character or
/// more, each of them of the class.
#[verifier::external_body]
fn regex_is_match(pattern: &str, text: &str) -> (r: Option<bool>)
    ensures
        pattern@ == VALID_ID_PATTERN@ ==> r == Some(is_identifier_text(text@)),
{
    match regex::Regex::new(pattern) {
        Ok(regex) => Some(regex.is_match(text)),
        Err(_) => None,
    }
}

/// Whether `id` matches the pattern of valid identifiers.
fn is_valid_id(id: &str) -> (b: bool)
    ensures
        b == is_identifier_text(id@),
{
    match regex_is_match(VALID_ID_PATTERN, id) {
        Some(matched) => matched,
        None => false,
    }
}

/// Checks an identifier against the rules, with the given bounds on its
/// length in bytes.
pub fn validate_identifier(id: &str, min: usize, max: usize) -> (r: Result<
    (),
    IdentifierValidationError,
>)
    ensures
        r == crate::validation::validation_result(identifier_error(id@, min, max)),
{
    if blank(id) {
        return Err(IdentifierValidationError::BlankIdentifier);
    }
    if contains_char(id, SEPARATOR) {
        return Err(IdentifierValidationError::CannotContainSeparator);
    }
    let id_len: usize = id.as_bytes().len();
    if id_len < min || id_len > max {
        return Err(IdentifierValidationError::InvalidLength { len: id_len, min, max });
    }
    if !is_valid_id(id) {
        return Err(IdentifierValidationError::InvalidChars);
    }
    Ok(())
}

/// Checks a client identifier: between 9 and 64 bytes of letters, digits and
/// the marks `.`, `_`, `+`, `-`, `#`, `[`, `]`, `<`, `>`.
pub fn validate_client_id(id: &str) -> (r: Result<(), IdentifierValidationError>)
    ensures
        r == crate::validation::validation_result(
            identifier_error(id@, CLIENT_ID_MIN_LENGTH, CLIENT_ID_MAX_LENGTH),
        ),
{
    validate_identifier(id, CLIENT_ID_MIN_LENGTH, CLIENT_ID_MAX_LENGTH)
}

} // verus!
