//! Interpretation of the user's reply to the confirmation prompt.

use vstd::prelude::*;
use vstd::string::*;

verus! {

/// The text that `str::trim` returns for a string with the given characters.
pub uninterp spec fn trimmed(text: Seq<char>) -> Seq<char>;

/// The text that `str::to_lowercase` returns for a string with the given
/// characters.
pub uninterp spec fn lowercased(text: Seq<char>) -> Seq<char>;

/// The one reply that counts as consent, after trimming and case folding.
pub open spec fn consent() -> Seq<char> {
    seq!['y']
}

/// What a reply decides: consent only if it is `y` once surrounding
/// whitespace is removed and case is folded.
pub open spec fn answer_accepts(answer: Seq<char>) -> bool {
    lowercased(trimmed(answer)) == consent()
}

/// Calls `str::trim`, which removes leading and trailing Unicode whitespace.
/// The result is a function of the characters alone; it is only named here.
#[verifier::external_body]
fn trim(text: &str) -> (out: &str)
    ensures
        out@ == trimmed(text@),
{
    text.trim()
}

/// Calls `str::to_lowercase`, which maps the text to its Unicode lowercase
/// form. The result is a function of the characters alone; it is only named
/// here.
#[verifier::external_body]
fn to_lowercase(text: &str) -> (out: String)
    ensures
        out@ == lowercased(text@),
{
    text.to_lowercase()
}

/// Decides on a reply that has already been trimmed and case-folded.
pub fn is_consent(normalized: &str) -> (accepted: bool)
    ensures
        accepted == (normalized@ == consent()),
{
    let n: usize = normalized.unicode_len();
    if n != 1 {
        return false;
    }
    let first: char = normalized.get_char(0);
    assert(first == 'y' ==> normalized@ =~= consent());
    first == 'y'
}

/// Interprets one line of interactive input. Anything but a lone `y`
/// (in either case, with any surrounding whitespace) is a refusal.
pub fn process_answer(answer: &str) -> (accepted: bool)
    ensures
        accepted == answer_accepts(answer@),
{
    let folded: String = to_lowercase(trim(answer));
    is_consent(folded.as_str())
}

} // verus!
