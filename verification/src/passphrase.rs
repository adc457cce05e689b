//! Passphrase syntax validation.
//!
//! A passphrase travels over the tool's dedicated passphrase channel, whose
//! records are line-oriented; a passphrase holding a line break or a NUL
//! byte could forge or cut a record, so those characters are banned.  Length
//! is bounded so the single write to the channel stays small.

use vstd::prelude::*;

verus! {

/// Longest accepted passphrase, in characters.
pub const MAX_PASSPHRASE_LEN: usize = 1024;

/// Characters a passphrase may not hold: the status-channel line delimiter,
/// a carriage return, and NUL.
pub open spec fn banned_char(c: char) -> bool {
    c == '\n' || c == '\r' || c == '\0'
}

/// A well-formed passphrase: non-empty, within the length bound, and free of
/// banned control characters.
pub open spec fn passphrase_ok(s: Seq<char>) -> bool {
    &&& 1 <= s.len() <= MAX_PASSPHRASE_LEN
    &&& forall|i: int| 0 <= i < s.len() ==> !banned_char(s[i])
}

/// Decide whether `p` is accepted as a passphrase.
pub fn is_passphrase_valid(p: &str) -> (r: bool)
    ensures
        r == passphrase_ok(p@),
{
    let n = p.unicode_len();
    if n < 1 || n > MAX_PASSPHRASE_LEN {
        return false;
    }
    let mut i: usize = 0;
    while i < n
        invariant
            i <= n == p@.len(),
            forall|j: int| 0 <= j < i ==> !banned_char(p@[j]),
        decreases n - i,
    {
        let c = p.get_char(i);
        if c == '\n' || c == '\r' || c == '\0' {
            return false;
        }
        i += 1;
    }
    true
}

} // verus!
