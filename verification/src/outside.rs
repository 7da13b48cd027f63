//! The few calls the verified logic makes into outside code, each behind a
//! trusted item whose contract states what the callee's source shows.

use vstd::prelude::*;

use crate::ident::is_dashed_id;

verus! {

/// What the MIME guesser derives from a file name: a fixed table lookup on
/// the name's extension, falling back to `text/plain` when the extension is
/// unknown. The result is a function of the name alone.
pub uninterp spec fn mime_of_path(name: Seq<char>) -> Seq<char>;

/// Relies on `String::push`: appends one character at the end of the string.
#[verifier::external_body]
pub(crate) fn push_char(s: &mut String, c: char)
    ensures
        final(s)@ == old(s)@.push(c),
{
    s.push(c);
}

/// Relies on `uuid::Uuid::new_v4` and the `Display` impl of `Uuid`: a fresh
/// random UUID rendered in the hyphenated lower-case form (36 characters,
/// dashes at positions 8, 13, 18 and 23, lower-case hex digits elsewhere).
/// Nothing is assumed about which identifier comes back.
#[verifier::external_body]
pub(crate) fn new_uuid() -> (r: String)
    ensures
        is_dashed_id(r@),
{
    uuid::Uuid::new_v4().to_string()
}

/// Relies on `mime_guess::from_path` and `MimeGuess::first_or_text_plain`:
/// the guessed content type is determined by the file name alone.
#[verifier::external_body]
pub(crate) fn guess_mime(name: &str) -> (r: String)
    ensures
        r@ == mime_of_path(name@),
{
    mime_guess::from_path(name).first_or_text_plain().to_string()
}

} // verus!
