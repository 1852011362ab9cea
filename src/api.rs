//! Decisions of the inbound HTTP surface that do not depend on the server.
use vstd::prelude::*;
use crate::error::BotError;
use crate::text::{chars_from, chars_of, has_prefix};

verus! {

/// Whether `t` occurs in `s`.
pub open spec fn occurs_in(t: Seq<char>, s: Seq<char>) -> bool {
    exists|i: int| 0 <= i <= s.len() - t.len() && #[trigger] s.subrange(i, i + t.len()) == t
}

/// Whether `t` occurs in `s`.
pub fn contains_text(s: &[char], t: &[char]) -> (r: bool)
    ensures
        r == occurs_in(t@, s@),
{
    if t.len() > s.len() {
        return false;
    }
    let mut i: usize = 0;
    while i <= s.len() - t.len()
        invariant
            t@.len() <= s@.len(),
            0 <= i <= s@.len() - t@.len() + 1,
            forall|j: int| 0 <= j < i ==> #[trigger] s@.subrange(j, j + t@.len()) != t@,
        decreases s@.len() - t@.len() + 1 - i,
    {
        let rest = chars_from(s, i);
        if has_prefix(rest.as_slice(), t) {
            assert(s@.subrange(i as int, i + t@.len()) =~= rest@.take(t@.len() as int));
            return true;
        }
        assert(s@.subrange(i as int, i + t@.len()) =~= rest@.take(t@.len() as int));
        i = i + 1;
    }
    false
}

/// Whether a failed callback is the sender's fault rather than the relay's:
/// its rendered text mentions `parse` or `Invalid`.
pub fn callback_failure_is_bad_request(e: &BotError) -> (r: bool)
    ensures
        r == (occurs_in("parse"@, e.text()) || occurs_in("Invalid"@, e.text())),
{
    let text = e.message();
    let chars = chars_of(text.as_str());
    let parse = chars_of("parse");
    let invalid = chars_of("Invalid");
    contains_text(chars.as_slice(), parse.as_slice()) || contains_text(
        chars.as_slice(),
        invalid.as_slice(),
    )
}

} // verus!
