//! Operations on text that the notification is built from.

use vstd::prelude::*;
use vstd::string::StrSliceExecFns;

verus! {

/// The separator of the segments of a ref path.
pub const SEGMENT_SEPARATOR: char = '/';

/// Index at which the final segment of `s` begins: just behind the last
/// separator, or 0 where `s` holds none.
pub open spec fn final_segment_start(s: Seq<char>) -> int
    decreases s.len(),
{
    if s.len() == 0 {
        0
    } else if s.last() == SEGMENT_SEPARATOR {
        s.len() as int
    } else {
        final_segment_start(s.drop_last())
    }
}

/// The final segment of `s`: what follows its last separator, or all of `s`
/// where it holds none. It is empty where `s` ends in a separator.
pub open spec fn final_segment(s: Seq<char>) -> Seq<char> {
    s.subrange(final_segment_start(s), s.len() as int)
}

/// The final segment is what its name says: it ends `s`, it holds no
/// separator, and it is all of `s` or stands right behind a separator.
pub proof fn lemma_final_segment_is_final(s: Seq<char>)
    ensures
        0 <= final_segment_start(s) <= s.len(),
        s == s.take(final_segment_start(s)) + final_segment(s),
        !final_segment(s).contains(SEGMENT_SEPARATOR),
        final_segment_start(s) > 0 ==> s[final_segment_start(s) - 1] == SEGMENT_SEPARATOR,
    decreases s.len(),
{
    let start = final_segment_start(s);
    if s.len() == 0 {
    } else if s.last() == SEGMENT_SEPARATOR {
    } else {
        let shorter = s.drop_last();
        lemma_final_segment_is_final(shorter);
        assert(final_segment(s).drop_last() == final_segment(shorter));
        assert forall|i: int| 0 <= i < final_segment(s).len() implies final_segment(s)[i]
            != SEGMENT_SEPARATOR by {
            if i < final_segment(s).len() - 1 {
                assert(final_segment(shorter)[i] == final_segment(s)[i]);
                assert(final_segment(shorter).contains(final_segment(shorter)[i]));
            }
        }
    }
    assert(s =~= s.take(start) + final_segment(s));
}

/// No other part of `s` is a final segment: a position from which `s` holds
/// no separator, and which is the start of `s` or stands right behind a
/// separator, is the start of the final segment.
pub proof fn lemma_final_segment_is_unique(s: Seq<char>, start: int)
    requires
        0 <= start <= s.len(),
        !s.subrange(start, s.len() as int).contains(SEGMENT_SEPARATOR),
        start > 0 ==> s[start - 1] == SEGMENT_SEPARATOR,
    ensures
        start == final_segment_start(s),
        s.subrange(start, s.len() as int) == final_segment(s),
{
    lemma_final_segment_is_final(s);
    let found = final_segment_start(s);
    if found < start {
        let at = start - 1 - found;
        assert(final_segment(s)[at] == SEGMENT_SEPARATOR);
        assert(final_segment(s).contains(SEGMENT_SEPARATOR));
    } else if start < found {
        let rest = s.subrange(start, s.len() as int);
        let at = found - 1 - start;
        assert(rest[at] == SEGMENT_SEPARATOR);
        assert(rest.contains(SEGMENT_SEPARATOR));
    }
}

/// The final segment of `s`, as a slice of it.
pub fn final_segment_of(s: &str) -> (segment: &str)
    ensures
        segment@ == final_segment(s@),
{
    let total: usize = s.unicode_len();
    let mut start: usize = 0;
    let mut seen: usize = 0;
    for c in it: s.chars()
        invariant
            it.seq() == s@,
            total == s@.len(),
            seen == it.index(),
            0 <= start <= seen,
            start == final_segment_start(s@.take(seen as int)),
    {
        assert(s@.take(seen + 1).drop_last() == s@.take(seen as int));
        seen = seen + 1;
        if c == SEGMENT_SEPARATOR {
            start = seen;
        }
    }
    assert(s@.take(seen as int) == s@);
    s.substring_char(start, seen)
}

} // verus!
