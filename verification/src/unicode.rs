//! The two Unicode operations the engine needs from outside: canonical
//! normalization (NFC) and lower-casing. Both results are functions of the
//! input characters alone, so each carries an uninterpreted name that the
//! contracts of the engine speak of; concrete values are exercised by tests.

use unicode_normalization::UnicodeNormalization;
use vstd::prelude::*;

verus! {

/// The Unicode Normalization Form C of a character sequence.
pub uninterp spec fn nfc_of(s: Seq<char>) -> Seq<char>;

/// The lower-case form of a character sequence.
pub uninterp spec fn lower_of(s: Seq<char>) -> Seq<char>;

/// Relies on unicode_normalization's `UnicodeNormalization::nfc` for `&str`:
/// the iterator yields the input recomposed into Normalization Form C, a
/// function of the input characters alone.
#[verifier::external_body]
pub(crate) fn nfc_str(s: &str) -> (r: String)
    ensures
        r@ == nfc_of(s@),
{
    s.nfc().collect::<String>()
}

/// Relies on `str::to_lowercase`: the lower-case mapping of the input,
/// a function of the input characters alone.
#[verifier::external_body]
pub(crate) fn lowercase(s: &str) -> (r: String)
    ensures
        r@ == lower_of(s@),
{
    s.to_lowercase()
}

/// Relies on `char::to_string` (through `Display`): the returned `String`
/// holds exactly the one character.
#[verifier::external_body]
pub(crate) fn char_to_string(c: char) -> (r: String)
    ensures
        r@ == seq![c],
{
    c.to_string()
}

} // verus!
