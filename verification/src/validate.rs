//! Field-level validation: the pure checks that run before any registry
//! mutation.
//!
//! A caller-supplied string must be non-empty; an email must contain `@`
//! (no further format rules); a phone number must be exactly ten decimal
//! digits.  Each check is a spec predicate over the string's character
//! sequence together with an executable function proved to decide it.

use vstd::prelude::*;

verus! {

/// A required string field must hold at least one character.
pub open spec fn nonempty(s: Seq<char>) -> bool {
    s.len() > 0
}

/// A decimal digit, `'0'` through `'9'`.
pub open spec fn is_digit(c: char) -> bool {
    '0' <= c && c <= '9'
}

/// A well-formed phone number: exactly ten characters, all decimal digits.
pub open spec fn valid_phone(s: Seq<char>) -> bool {
    &&& s.len() == 10
    &&& forall|i: int| 0 <= i < s.len() ==> is_digit(#[trigger] s[i])
}

/// A well-formed email: contains an `@` somewhere.
pub open spec fn valid_email(s: Seq<char>) -> bool {
    exists|i: int| 0 <= i < s.len() && #[trigger] s[i] == '@'
}

/// Decides `nonempty` for a string.
pub fn check_nonempty(s: &String) -> (r: bool)
    ensures
        r == nonempty(s@),
{
    !s.as_str().is_empty()
}

/// Decides `valid_email` for a string.
pub fn check_email_format(s: &String) -> (r: bool)
    ensures
        r == valid_email(s@),
{
    let text = s.as_str();
    let len = text.unicode_len();
    for i in 0..len
        invariant
            len == text@.len(),
            text@ == s@,
            forall|j: int| 0 <= j < i ==> #[trigger] text@[j] != '@',
    {
        if text.get_char(i) == '@' {
            return true;
        }
    }
    false
}

/// Decides `valid_phone` for a string.
pub fn check_phone_format(s: &String) -> (r: bool)
    ensures
        r == valid_phone(s@),
{
    let text = s.as_str();
    let len = text.unicode_len();
    if len != 10 {
        return false;
    }
    for i in 0..len
        invariant
            len == text@.len(),
            len == 10,
            text@ == s@,
            forall|j: int| 0 <= j < i ==> is_digit(#[trigger] text@[j]),
    {
        let c = text.get_char(i);
        if c < '0' || c > '9' {
            return false;
        }
    }
    true
}

} // verus!
