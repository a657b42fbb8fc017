//! Locales: a request names its language by a Unicode language identifier.

use crate::error::Error;
use unic_langid::LanguageIdentifier;
use vstd::prelude::*;

verus! {

/// A Unicode language identifier, as `unic_langid` parsed it.
#[verifier::external_type_specification]
#[verifier::external_body]
pub struct ExLanguageIdentifier(LanguageIdentifier);

/// The language identifier that `unic_langid` reads from the bytes, if it
/// reads one.
pub uninterp spec fn parsed_locale(bytes: Seq<u8>) -> Option<LanguageIdentifier>;

/// Calls `unic_langid::LanguageIdentifier::from_bytes`. Trusted: whether an
/// identifier comes back, and which, depends on the bytes alone. Nothing
/// else is claimed of the identifier.
#[verifier::external_body]
fn parse_language_identifier(bytes: &[u8]) -> (parsed: Option<LanguageIdentifier>)
    ensures
        parsed == parsed_locale(bytes@),
{
    LanguageIdentifier::from_bytes(bytes).ok()
}

/// The answer to a request that names a locale, given what came of parsing
/// the name: the identifier, or the request is malformed.
pub fn locale_or_bad_request(parsed: Option<LanguageIdentifier>) -> (r: Result<
    LanguageIdentifier,
    Error,
>)
    ensures
        r == match parsed {
            Some(locale) => Ok::<LanguageIdentifier, Error>(locale),
            None => Err::<LanguageIdentifier, Error>(Error::BadRequest),
        },
{
    match parsed {
        Some(locale) => Ok(locale),
        None => Err(Error::BadRequest),
    }
}

/// Reads the locale that a request names. A name that is no language
/// identifier makes the request malformed.
pub fn validate_locale(locale_str: &str) -> (r: Result<LanguageIdentifier, Error>)
    ensures
        r == match parsed_locale(vstd::utf8::encode_utf8(locale_str@)) {
            Some(locale) => Ok::<LanguageIdentifier, Error>(locale),
            None => Err::<LanguageIdentifier, Error>(Error::BadRequest),
        },
{
    locale_or_bad_request(parse_language_identifier(locale_str.as_bytes()))
}

} // verus!
