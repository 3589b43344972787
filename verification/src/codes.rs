//! Session codes: short random identifiers.

use vstd::prelude::*;
use vstd::string::*;

verus! {

/// The number of characters in a session code.
pub const CODE_LENGTH: usize = 8;

/// The characters that a session code is drawn from: the ten digits and the
/// twenty-six capital letters.
pub open spec fn code_alphabet() -> Seq<char> {
    "1234567890ABCDEFGHIJKLMNOPQRSTUVWXYZ"@
}

/// Whether `text` has the shape of a session code.
pub open spec fn is_code(text: Seq<char>) -> bool {
    &&& text.len() == CODE_LENGTH
    &&& forall|i: int| 0 <= i < text.len() ==> code_alphabet().contains(#[trigger] text[i])
}

/// A code consists of digits and capital letters, and of nothing else.
pub proof fn lemma_code_characters(text: Seq<char>)
    requires
        is_code(text),
    ensures
        forall|i: int|
            0 <= i < text.len() ==> ('0' <= #[trigger] text[i] <= '9') || ('A' <= text[i] <= 'Z'),
{
    reveal_strlit("1234567890ABCDEFGHIJKLMNOPQRSTUVWXYZ");
    let alphabet = code_alphabet();
    assert forall|j: int| 0 <= j < alphabet.len() implies ('0' <= #[trigger] alphabet[j] <= '9')
        || ('A' <= alphabet[j] <= 'Z') by {}
}

/// Calls `random_string::generate`. The contract claims that the text has
/// `length` characters and that each of them occurs in `charset`. Which of
/// them are drawn is left open: two calls may differ. The call panics on an
/// empty charset, which the precondition leaves out, as it does lengths
/// whose encoding could not be allocated.
#[verifier::external_body]
fn random_text(length: usize, charset: &str) -> (text: String)
    requires
        charset@.len() > 0,
        4 * length <= isize::MAX,
    ensures
        text@.len() == length,
        forall|i: int| 0 <= i < text@.len() ==> charset@.contains(#[trigger] text@[i]),
{
    random_string::generate(length, charset)
}

/// Draws a session code at random.
///
/// With 36 characters in 8 places there are nearly three million million
/// codes, so two draws rarely agree; the registry still refuses a code that
/// is taken.
pub fn generate_code() -> (code: String)
    ensures
        is_code(code@),
{
    proof {
        reveal_strlit("1234567890ABCDEFGHIJKLMNOPQRSTUVWXYZ");
    }
    random_text(CODE_LENGTH, "1234567890ABCDEFGHIJKLMNOPQRSTUVWXYZ")
}

} // verus!
