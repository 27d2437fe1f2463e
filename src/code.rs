use crate::error::ClientError;
use vstd::prelude::*;

verus! {

/// Fewest characters a custom share code may have.
pub const MIN_CODE_LEN: usize = 4;

/// Most characters a custom share code may have.
pub const MAX_CODE_LEN: usize = 50;

/// The characters allowed in a custom share code: ASCII letters and digits,
/// underscore and hyphen.
pub open spec fn is_code_char(c: char) -> bool {
    ('a' <= c && c <= 'z') || ('A' <= c && c <= 'Z') || ('0' <= c && c <= '9') || c == '_' || c
        == '-'
}

/// The rule that a code breaks first, checked in the order: too short, too
/// long, a character that is not allowed. `None` when the code is accepted.
pub open spec fn code_error(s: Seq<char>) -> Option<ClientError> {
    if s.len() < MIN_CODE_LEN {
        Some(ClientError::CodeTooShort)
    } else if s.len() > MAX_CODE_LEN {
        Some(ClientError::CodeTooLong)
    } else if exists|i: int| 0 <= i < s.len() && !is_code_char(#[trigger] s[i]) {
        Some(ClientError::CodeInvalidChar)
    } else {
        None
    }
}

/// A code is accepted exactly when it has at least `MIN_CODE_LEN` and at most
/// `MAX_CODE_LEN` characters and every one of them is allowed; a rejected code is rejected
/// with one of the three code errors, which names the rule it broke.
pub proof fn lemma_code_rules(s: Seq<char>)
    ensures
        code_error(s) is None <==> (MIN_CODE_LEN <= s.len() <= MAX_CODE_LEN && forall|i: int|
            0 <= i < s.len() ==> is_code_char(#[trigger] s[i])),
        code_error(s) is Some ==> (code_error(s) == Some(ClientError::CodeTooShort) || code_error(s)
            == Some(ClientError::CodeTooLong) || code_error(s) == Some(
            ClientError::CodeInvalidChar,
        )),
{
}

fn is_code_char_exec(c: char) -> (r: bool)
    ensures
        r == is_code_char(c),
{
    ('a' <= c && c <= 'z') || ('A' <= c && c <= 'Z') || ('0' <= c && c <= '9') || c == '_' || c
        == '-'
}

/// Checks a custom share code, reporting the first rule that it breaks.
pub fn validate_custom_code(code: &str) -> (r: Result<(), ClientError>)
    ensures
        r == match code_error(code@) {
            Some(e) => Err(e),
            None => Ok(()),
        },
{
    let n = code.unicode_len();
    if n < MIN_CODE_LEN {
        return Err(ClientError::CodeTooShort);
    }
    if n > MAX_CODE_LEN {
        return Err(ClientError::CodeTooLong);
    }
    let mut i: usize = 0;
    while i < n
        invariant
            n == code@.len(),
            MIN_CODE_LEN <= n <= MAX_CODE_LEN,
            i <= n,
            forall|j: int| 0 <= j < i ==> is_code_char(#[trigger] code@[j]),
        decreases n - i,
    {
        let c = code.get_char(i);
        if !is_code_char_exec(c) {
            assert(!is_code_char(code@[i as int]));
            return Err(ClientError::CodeInvalidChar);
        }
        i = i + 1;
    }
    Ok(())
}

} // verus!
