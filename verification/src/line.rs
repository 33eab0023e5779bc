//! Reading one line of player input.

use vstd::prelude::*;
use crate::chars::{is_whitespace, whitespace};

verus! {

/// `s` without the whitespace at its start.
pub open spec fn trim_start(s: Seq<char>) -> Seq<char>
    decreases s.len(),
{
    if s.len() > 0 && whitespace(s.first()) {
        trim_start(s.drop_first())
    } else {
        s
    }
}

/// `s` without the whitespace at its end.
pub open spec fn trim_end(s: Seq<char>) -> Seq<char>
    decreases s.len(),
{
    if s.len() > 0 && whitespace(s.last()) {
        trim_end(s.drop_last())
    } else {
        s
    }
}

/// `s` without the whitespace at either end.
pub open spec fn trimmed(s: Seq<char>) -> Seq<char> {
    trim_end(trim_start(s))
}

/// If the first `lo` characters of `s` are whitespace and the next one is
/// not, trimming the start drops exactly those `lo`.
pub proof fn lemma_trim_start(s: Seq<char>, lo: int)
    requires
        0 <= lo <= s.len(),
        forall|j: int| 0 <= j < lo ==> whitespace(s[j]),
        lo < s.len() ==> !whitespace(s[lo]),
    ensures
        trim_start(s) == s.skip(lo),
    decreases lo,
{
    if lo == 0 {
        assert(s.skip(0) == s);
    } else {
        let rest = s.drop_first();
        assert forall|j: int| 0 <= j < lo - 1 implies whitespace(rest[j]) by {
            assert(rest[j] == s[j + 1]);
        }
        lemma_trim_start(rest, lo - 1);
        assert(rest.skip(lo - 1) == s.skip(lo));
    }
}

/// If the characters of `s` from `hi` on are whitespace and the one before
/// them is not, trimming the end keeps exactly the first `hi`.
pub proof fn lemma_trim_end(s: Seq<char>, hi: int)
    requires
        0 <= hi <= s.len(),
        forall|j: int| hi <= j < s.len() ==> whitespace(s[j]),
        0 < hi ==> !whitespace(s[hi - 1]),
    ensures
        trim_end(s) == s.take(hi),
    decreases s.len() - hi,
{
    if hi == s.len() {
        assert(s.take(hi) == s);
    } else {
        let rest = s.drop_last();
        lemma_trim_end(rest, hi);
        assert(rest.take(hi) == s.take(hi));
    }
}

/// The number of characters of `chars` between its first and its last
/// character that is not whitespace, both included.
pub fn trimmed_len(chars: &Vec<char>) -> (n: usize)
    ensures
        n == trimmed(chars@).len(),
{
    let mut lo: usize = 0;
    while lo < chars.len() && is_whitespace(chars[lo])
        invariant
            lo <= chars.len(),
            forall|j: int| 0 <= j < lo ==> whitespace(chars@[j]),
        decreases chars.len() - lo,
    {
        lo += 1;
    }
    let mut hi: usize = chars.len();
    while hi > lo && is_whitespace(chars[hi - 1])
        invariant
            lo <= hi <= chars.len(),
            forall|j: int| hi <= j < chars.len() ==> whitespace(chars@[j]),
        decreases hi,
    {
        hi -= 1;
    }
    proof {
        lemma_trim_start(chars@, lo as int);
        let rest = chars@.skip(lo as int);
        lemma_trim_end(rest, hi - lo);
    }
    hi - lo
}

} // verus!
