//! The censorship primitive. Detection and censoring are done by `rustrict`
//! with its built-in dictionary; this module only decides what is kept.
use vstd::prelude::*;

verus! {

/// Whether `rustrict` finds a text inappropriate.
pub uninterp spec fn is_inappropriate(text: Seq<char>) -> bool;

/// The censored form that `rustrict` gives a text.
pub uninterp spec fn censored(text: Seq<char>) -> Seq<char>;

/// Whether a text is inappropriate.
///
/// Calls `rustrict::CensorStr::is_inappropriate`; the result is the value
/// named [`is_inappropriate`].
#[verifier::external_body]
pub(crate) fn detect(text: &str) -> (r: bool)
    ensures
        r == is_inappropriate(text@),
{
    rustrict::CensorStr::is_inappropriate(text)
}

/// The censored form of a text.
///
/// Calls `rustrict::CensorStr::censor`; the result is the value named
/// [`censored`].
#[verifier::external_body]
pub(crate) fn censor(text: &str) -> (r: String)
    ensures
        r@ == censored(text@),
{
    rustrict::CensorStr::censor(text)
}

/// The text to show in place of `text` and whether `text` was found
/// inappropriate: the censored form if it was, `text` itself if not.
pub open spec fn filtered(text: Seq<char>) -> (Seq<char>, bool) {
    if is_inappropriate(text) {
        (censored(text), true)
    } else {
        (text, false)
    }
}

/// Runs `text` through the censor. Returns the text to show and whether the
/// text was found inappropriate.
pub fn filter_profanity(text: &str) -> (r: (String, bool))
    ensures
        (r.0@, r.1) == filtered(text@),
{
    let has_profanity = detect(text);
    if has_profanity {
        (censor(text), true)
    } else {
        (text.to_string(), false)
    }
}

/// Whether `text` is found inappropriate.
pub fn contains_profanity(text: &str) -> (r: bool)
    ensures
        r == is_inappropriate(text@),
{
    detect(text)
}

} // verus!
