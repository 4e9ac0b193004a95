//! Bounded tail reads of a classification log.
//!
//! A log small enough for the byte budget is returned whole.  A larger log
//! is read only over its last `budget` bytes; the leading fragment of that
//! window — everything up to and including the first line terminator,
//! very likely a truncated line — is discarded, so that the returned text,
//! when non-empty, begins with a complete line.

use vstd::prelude::*;
use crate::text::copy_range;

verus! {

/// The line terminator byte.
pub const NEWLINE: u8 = 10;

/// What remains of `s` after discarding everything up to and including
/// its first newline; empty when `s` holds no newline at all.
pub open spec fn after_first_newline(s: Seq<u8>) -> Seq<u8>
    decreases s.len(),
{
    if s.len() == 0 {
        s
    } else if s[0] == NEWLINE {
        s.drop_first()
    } else {
        after_first_newline(s.drop_first())
    }
}

/// The tail read of a log with the given content and byte budget: the
/// whole content when it fits the budget, otherwise the last `budget`
/// bytes with their leading partial line discarded.
pub open spec fn tail_view(content: Seq<u8>, budget: int) -> Seq<u8> {
    if content.len() <= budget {
        content
    } else {
        after_first_newline(content.subrange(content.len() - budget, content.len() as int))
    }
}

proof fn lemma_after_first_newline_suffix(s: Seq<u8>)
    ensures
        after_first_newline(s).len() <= s.len(),
        s.len() > 0 ==> after_first_newline(s).len() < s.len(),
        after_first_newline(s) =~= s.subrange(
            s.len() - after_first_newline(s).len(),
            s.len() as int,
        ),
        after_first_newline(s).len() > 0 ==> s[s.len() - after_first_newline(s).len() - 1]
            == NEWLINE,
    decreases s.len(),
{
    if s.len() == 0 {
    } else if s[0] == NEWLINE {
        assert(s.drop_first() =~= s.subrange(1, s.len() as int));
    } else {
        let rest = s.drop_first();
        lemma_after_first_newline_suffix(rest);
        let r = after_first_newline(s);
        assert(r =~= rest.subrange(rest.len() - r.len(), rest.len() as int));
        assert(r =~= s.subrange(s.len() - r.len(), s.len() as int));
        if r.len() > 0 {
            assert(rest[rest.len() - r.len() - 1] == NEWLINE);
            assert(s[s.len() - r.len() - 1] == rest[rest.len() - r.len() - 1]);
        }
    }
}

proof fn lemma_after_first_newline_at(s: Seq<u8>, j: int)
    requires
        0 <= j < s.len(),
        s[j] == NEWLINE,
        forall|i: int| 0 <= i < j ==> s[i] != NEWLINE,
    ensures
        after_first_newline(s) =~= s.subrange(j + 1, s.len() as int),
    decreases s.len(),
{
    if j == 0 {
        assert(s.drop_first() =~= s.subrange(1, s.len() as int));
    } else {
        let rest = s.drop_first();
        lemma_after_first_newline_at(rest, j - 1);
        assert(rest.subrange(j, rest.len() as int) =~= s.subrange(j + 1, s.len() as int));
    }
}

proof fn lemma_after_first_newline_none(s: Seq<u8>)
    requires
        forall|i: int| 0 <= i < s.len() ==> s[i] != NEWLINE,
    ensures
        after_first_newline(s).len() == 0,
    decreases s.len(),
{
    if s.len() > 0 {
        lemma_after_first_newline_none(s.drop_first());
    }
}

/// Discard everything up to and including the first newline of a window
/// read from the middle of a log, leaving only whole lines; a window
/// with no newline at all leaves nothing.  Handing this the last
/// `budget` bytes of a log larger than `budget` gives exactly the tail
/// read of that log.
pub fn strip_partial_first_line(window: &Vec<u8>) -> (r: Vec<u8>)
    ensures
        r@ == after_first_newline(window@),
{
    let mut k: usize = 0;
    while k < window.len() && window[k] != NEWLINE
        invariant
            k <= window@.len(),
            forall|i: int| 0 <= i < k ==> window@[i] != NEWLINE,
        decreases window@.len() - k,
    {
        k = k + 1;
    }
    if k == window.len() {
        proof {
            lemma_after_first_newline_none(window@);
        }
        Vec::new()
    } else {
        proof {
            lemma_after_first_newline_at(window@, k as int);
        }
        copy_range(window, k + 1, window.len())
    }
}

/// Read the tail of a log held in `content` under a byte budget.
///
/// A log within the budget comes back unchanged.  A larger log comes back
/// as the final `budget` bytes with everything up to and including the
/// first newline discarded, so the first returned line is never a
/// fragment: whenever the result is non-empty, it is a suffix of the
/// content whose preceding byte is a newline.
pub fn tail_bytes(content: &Vec<u8>, budget: usize) -> (r: Vec<u8>)
    ensures
        r@ == tail_view(content@, budget as int),
        content@.len() <= budget ==> r@ == content@,
        content@.len() > budget ==> r@.len() <= budget,
        r@.len() > 0 ==> r@ =~= content@.subrange(
            content@.len() - r@.len(),
            content@.len() as int,
        ),
        content@.len() > budget && r@.len() > 0 ==> content@[content@.len() - r@.len() - 1]
            == NEWLINE,
{
    if content.len() <= budget {
        return copy_range(content, 0, content.len());
    }
    let window_start: usize = content.len() - budget;
    let ghost window = content@.subrange(window_start as int, content@.len() as int);
    let mut k: usize = window_start;
    while k < content.len() && content[k] != NEWLINE
        invariant
            window_start <= k <= content@.len(),
            forall|i: int| window_start <= i < k ==> content@[i] != NEWLINE,
        decreases content@.len() - k,
    {
        k = k + 1;
    }
    proof {
        assert(forall|i: int|
            0 <= i < k - window_start ==> window[i] == content@[i + window_start]);
    }
    if k == content.len() {
        proof {
            lemma_after_first_newline_none(window);
        }
        Vec::new()
    } else {
        proof {
            lemma_after_first_newline_at(window, k - window_start);
            assert(window.subrange(k - window_start + 1, window.len() as int) =~= content@
                .subrange(k + 1, content@.len() as int));
            lemma_after_first_newline_suffix(window);
        }
        copy_range(content, k + 1, content.len())
    }
}

} // verus!
