//! Decoding of what a request carries: its route and its numbers.

use vstd::prelude::*;
use vstd::string::*;
use crate::text::same_text;

verus! {

/// The operation that a request asks for.
#[derive(Clone, Copy, Debug, PartialEq, Eq, Structural)]
pub enum Route {
    CreateSession,
    AddBuffer,
    GetSession,
    SubscribeGuest,
    SetFinished,
    /// No operation answers to this path and method.
    Invalid,
}

/// The operation that answers to `path` and `method`.
pub open spec fn route_of(path: Seq<char>, method: Seq<char>) -> Route {
    if path == "/create-session"@ && method == "POST"@ {
        Route::CreateSession
    } else if path == "/add-buffer"@ && method == "POST"@ {
        Route::AddBuffer
    } else if path == "/get-session"@ && method == "GET"@ {
        Route::GetSession
    } else if path == "/subscribe-guest"@ && method == "GET"@ {
        Route::SubscribeGuest
    } else if path == "/set-finished"@ && method == "POST"@ {
        Route::SetFinished
    } else {
        Route::Invalid
    }
}

/// Finds the operation that answers to `path` and `method`.
pub fn router(path: &str, method: &str) -> (route: Route)
    ensures
        route == route_of(path@, method@),
{
    let post = same_text(method, "POST");
    let get = same_text(method, "GET");
    if post && same_text(path, "/create-session") {
        Route::CreateSession
    } else if post && same_text(path, "/add-buffer") {
        Route::AddBuffer
    } else if get && same_text(path, "/get-session") {
        Route::GetSession
    } else if get && same_text(path, "/subscribe-guest") {
        Route::SubscribeGuest
    } else if post && same_text(path, "/set-finished") {
        Route::SetFinished
    } else {
        Route::Invalid
    }
}

/// Whether `c` is one of the ten decimal digits.
pub open spec fn is_digit(c: char) -> bool {
    '0' <= c <= '9'
}

/// The number that the decimal digits `digits` write.
pub open spec fn value_of(digits: Seq<char>) -> nat
    decreases digits.len(),
{
    if digits.len() == 0 {
        0
    } else {
        (value_of(digits.drop_last()) * 10 + (digits.last() as u8 - '0' as u8)) as nat
    }
}

/// The count that `text` writes: `text` is one or more decimal digits and
/// nothing else, and their number fits the machine's `usize`.
pub open spec fn count_of(text: Seq<char>) -> Option<usize> {
    if text.len() > 0 && (forall|i: int| 0 <= i < text.len() ==> is_digit(#[trigger] text[i]))
        && value_of(text) <= usize::MAX {
        Some(value_of(text) as usize)
    } else {
        None
    }
}

/// A number written with more digits is no smaller than the number that
/// its first digits write.
proof fn lemma_value_grows(digits: Seq<char>, k: int)
    requires
        0 <= k <= digits.len(),
        forall|i: int| 0 <= i < digits.len() ==> is_digit(#[trigger] digits[i]),
    ensures
        value_of(digits.take(k)) <= value_of(digits),
    decreases digits.len() - k,
{
    if k < digits.len() {
        lemma_value_grows(digits, k + 1);
        let longer = digits.take(k + 1);
        assert(longer.drop_last() =~= digits.take(k));
    } else {
        assert(digits.take(k) =~= digits);
    }
}

/// Reads a count written in decimal digits.
pub fn parse_count(text: &str) -> (count: Option<usize>)
    ensures
        count == count_of(text@),
{
    if !text.is_ascii() {
        return None;
    }
    let bytes = text.as_bytes();
    proof {
        vstd::string::is_ascii_spec_bytes(text);
    }
    if bytes.len() == 0 {
        return None;
    }
    let mut value: usize = 0;
    let mut i: usize = 0;
    while i < bytes.len()
        invariant
            i <= bytes.len(),
            bytes@.len() == text@.len(),
            forall|k: int| 0 <= k < bytes@.len() ==> bytes@[k] == text@[k] as u8,
            forall|k: int| 0 <= k < bytes@.len() ==> '\0' <= #[trigger] text@[k] <= '\u{7f}',
            forall|k: int| 0 <= k < i ==> is_digit(#[trigger] text@[k]),
            value == value_of(text@.take(i as int)),
        decreases bytes.len() - i,
    {
        let byte = bytes[i];
        if byte < 48 || byte > 57 {
            return None;
        }
        let ghost longer = text@.take(i + 1);
        assert(longer.drop_last() =~= text@.take(i as int));
        let digit: usize = (byte - 48) as usize;
        let next = match value.checked_mul(10) {
            Some(tens) => tens.checked_add(digit),
            None => None,
        };
        match next {
            Some(sum) => {
                value = sum;
            },
            None => {
                proof {
                    if forall|k: int| 0 <= k < text@.len() ==> is_digit(#[trigger] text@[k]) {
                        lemma_value_grows(text@, i + 1);
                    }
                }
                return None;
            },
        }
        i += 1;
    }
    assert(text@.take(i as int) =~= text@);
    Some(value)
}

} // verus!
