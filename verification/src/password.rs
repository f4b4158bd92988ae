//! The rule that a new password has to meet.

use regex::Regex;
use vstd::prelude::*;
use vstd::utf8::encode_utf8;

verus! {

/// Fewest bytes of a password.
pub const MIN_PASSWORD_BYTES: usize = 10;

/// Matches where the text holds an upper-case letter.
pub const HAS_UPPERCASE: &'static str = "[A-Z]";

/// Matches where the text holds a lower-case letter.
pub const HAS_LOWERCASE: &'static str = "[a-z]";

/// Matches where the text holds a digit.
pub const HAS_NUMBER: &'static str = "\\d";

/// Matches where the text holds one of the special characters.
pub const HAS_SPECIAL_CHAR: &'static str = "[!@#$%^&*(),.?\\:{}|<>]";

/// Whether the regular expression `pattern` matches anywhere in `text`, as
/// `Regex::is_match` finds it; nothing where `Regex::new` refuses the pattern.
pub uninterp spec fn regex_search(pattern: Seq<char>, text: Seq<char>) -> Option<bool>;

/// `Regex::new` on the pattern, then `Regex::is_match` on the text.
#[verifier::external_body]
fn regex_is_match(pattern: &str, text: &str) -> (found: Option<bool>)
    ensures
        found == regex_search(pattern@, text@),
{
    match Regex::new(pattern) {
        Ok(regex) => Some(regex.is_match(text)),
        Err(_) => None,
    }
}

/// The rule on a password of `bytes` bytes, given what each of the four
/// searches found: at least ten bytes, and every search a match. A search
/// that could not be made counts as no match.
pub open spec fn meets_rule(
    bytes: nat,
    uppercase: Option<bool>,
    lowercase: Option<bool>,
    number: Option<bool>,
    special: Option<bool>,
) -> bool {
    &&& bytes >= MIN_PASSWORD_BYTES
    &&& uppercase == Some(true)
    &&& lowercase == Some(true)
    &&& number == Some(true)
    &&& special == Some(true)
}

/// Whether a password is accepted.
pub open spec fn acceptable(password: Seq<char>) -> bool {
    meets_rule(
        encode_utf8(password).len(),
        regex_search(HAS_UPPERCASE@, password),
        regex_search(HAS_LOWERCASE@, password),
        regex_search(HAS_NUMBER@, password),
        regex_search(HAS_SPECIAL_CHAR@, password),
    )
}

/// Applies the rule to the length of a password and the outcome of the four
/// searches.
pub fn check_rule(
    bytes: usize,
    uppercase: Option<bool>,
    lowercase: Option<bool>,
    number: Option<bool>,
    special: Option<bool>,
) -> (ok: bool)
    ensures
        ok == meets_rule(bytes as nat, uppercase, lowercase, number, special),
{
    if bytes < MIN_PASSWORD_BYTES {
        return false;
    }
    let found = |search: Option<bool>| -> (hit: bool)
        ensures
            hit == (search == Some(true)),
        {
            match search {
                Some(hit) => hit,
                None => false,
            }
        };
    found(uppercase) && found(lowercase) && found(number) && found(special)
}

/// Whether a password is accepted: at least ten bytes long, with an
/// upper-case letter, a lower-case letter, a digit and a special character.
pub fn validate_password(password: &str) -> (valid: bool)
    ensures
        valid == acceptable(password@),
{
    let bytes = password.as_bytes().len();
    if bytes < MIN_PASSWORD_BYTES {
        return false;
    }
    check_rule(
        bytes,
        regex_is_match(HAS_UPPERCASE, password),
        regex_is_match(HAS_LOWERCASE, password),
        regex_is_match(HAS_NUMBER, password),
        regex_is_match(HAS_SPECIAL_CHAR, password),
    )
}

} // verus!
