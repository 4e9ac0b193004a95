//! Decisions of the ray-process supervisor.
//!
//! The supervisor spawns, kills and queries the separately shipped ray
//! binary; the process handling itself lives in the surrounding process.
//! This module holds the two decisions it makes on plain strings: how the
//! version line is extracted from the binary's output, and which running
//! processes the forced kill may touch.

use vstd::prelude::*;
use vstd::string::*;
use crate::network::{
    is_word_space,
    is_word_space_char,
    space_run,
    line_break,
    lemma_space_run_is,
    lemma_line_break_is,
};

verus! {

/// The length of the run of word spaces at the back of `s`.
pub open spec fn trailing_space_run(s: Seq<char>) -> int
    decreases s.len(),
{
    if s.len() == 0 || !is_word_space(s.last()) {
        0
    } else {
        1 + trailing_space_run(s.drop_last())
    }
}

proof fn lemma_trailing_space_run_is(s: Seq<char>, j: int)
    requires
        0 <= j <= s.len(),
        forall|i: int| s.len() - j <= i < s.len() ==> is_word_space(s[i]),
        j == s.len() || !is_word_space(s[s.len() - j - 1]),
    ensures
        trailing_space_run(s) == j,
    decreases s.len(),
{
    if j > 0 {
        lemma_trailing_space_run_is(s.drop_last(), j - 1);
    }
}

/// `s` without its leading and trailing word spaces.
pub open spec fn trim_text(s: Seq<char>) -> Seq<char> {
    if space_run(s) == s.len() {
        Seq::empty()
    } else {
        s.subrange(space_run(s), s.len() - trailing_space_run(s))
    }
}

/// Strip leading and trailing word spaces.
pub fn trim_spaces(s: &str) -> (r: String)
    ensures
        r@ == trim_text(s@),
{
    let len: usize = s.unicode_len();
    let mut a: usize = 0;
    while a < len && is_word_space_char(s.get_char(a))
        invariant
            len == s@.len(),
            a <= len,
            forall|i: int| 0 <= i < a ==> is_word_space(s@[i]),
        decreases len - a,
    {
        a = a + 1;
    }
    proof {
        lemma_space_run_is(s@, a as int);
    }
    if a == len {
        return String::new();
    }
    let mut b: usize = len;
    while b > a && is_word_space_char(s.get_char(b - 1))
        invariant
            len == s@.len(),
            a <= b <= len,
            forall|i: int| b <= i < len ==> is_word_space(s@[i]),
        decreases b,
    {
        b = b - 1;
    }
    proof {
        lemma_trailing_space_run_is(s@, len - b);
    }
    String::from_str(s.substring_char(a, b))
}

/// The first line of a process's output, trimmed of surrounding spaces;
/// empty output gives an empty line.
pub fn first_line_trimmed(s: &str) -> (r: String)
    ensures
        r@ == trim_text(s@.subrange(0, line_break(s@))),
{
    let len: usize = s.unicode_len();
    let mut j: usize = 0;
    while j < len && s.get_char(j) != '\n'
        invariant
            len == s@.len(),
            j <= len,
            forall|i: int| 0 <= i < j ==> s@[i] != '\n',
        decreases len - j,
    {
        j = j + 1;
    }
    proof {
        lemma_line_break_is(s@, j as int);
    }
    trim_spaces(s.substring_char(0, j))
}

/// Whether `s` ends with `suffix`.
pub open spec fn text_ends_with(s: Seq<char>, suffix: Seq<char>) -> bool {
    s.len() >= suffix.len() && s.subrange(s.len() - suffix.len(), s.len() as int) == suffix
}

/// Whether `p` occurs anywhere within `s`.
pub open spec fn text_contains(s: Seq<char>, p: Seq<char>) -> bool {
    exists|i: int| 0 <= i <= s.len() - p.len() && #[trigger] s.subrange(i, i + p.len()) == p
}

/// Check whether `s` ends with `suffix`.
pub fn str_ends_with(s: &str, suffix: &str) -> (r: bool)
    ensures
        r == text_ends_with(s@, suffix@),
{
    let len: usize = s.unicode_len();
    let sl: usize = suffix.unicode_len();
    if len < sl {
        return false;
    }
    let tail_part = s.substring_char(len - sl, len);
    let eq = crate::text::str_equal(tail_part, suffix);
    proof {
        if eq {
            assert(s@.subrange(len - sl, len as int) == suffix@);
        }
    }
    eq
}

/// Check whether `p` occurs anywhere within `s`.
pub fn str_contains(s: &str, p: &str) -> (r: bool)
    ensures
        r == text_contains(s@, p@),
{
    let len: usize = s.unicode_len();
    let pl: usize = p.unicode_len();
    if pl > len {
        proof {
            assert(!text_contains(s@, p@));
        }
        return false;
    }
    if pl == 0 {
        proof {
            assert(s@.subrange(0, 0 + p@.len() as int) =~= p@);
        }
        return true;
    }
    let mut i: usize = 0;
    while i <= len - pl
        invariant
            len == s@.len(),
            pl == p@.len(),
            0 < pl <= len,
            i <= len - pl + 1,
            forall|j: int| 0 <= j < i ==> #[trigger] s@.subrange(j, j + pl as int) != p@,
        decreases len - pl - i + 1,
    {
        let piece = s.substring_char(i, i + pl);
        if crate::text::str_equal(piece, p) {
            proof {
                assert(s@.subrange(i as int, i + pl as int) == p@);
            }
            return true;
        }
        i = i + 1;
    }
    false
}

/// The permission bits granted to one copied ray resource file: the
/// bundled binary runs, everything beside it is read-only data.
pub fn resource_mode(filename: &str) -> (r: u32)
    ensures
        filename@ == "dray-xray"@ ==> r == 0o755,
        filename@ != "dray-xray"@ ==> r == 0o644,
{
    if crate::text::str_equal(filename, "dray-xray") {
        0o755
    } else {
        0o644
    }
}

/// Whether the forced kill may touch a running process: its name must be
/// exactly the ray binary's, and its executable path — when one could be
/// read at all — must end in that name and lie under the application's
/// directory.  This keeps the kill from touching a ray that some other
/// installation runs.
pub fn should_force_kill(name: &str, exe: &str) -> (r: bool)
    ensures
        r == (name@ == "xray"@ && (exe@.len() == 0 || (text_ends_with(exe@, "xray"@)
            && text_contains(exe@, "dray"@)))),
{
    if !crate::text::str_equal(name, "xray") {
        return false;
    }
    if exe.unicode_len() == 0 {
        return true;
    }
    str_ends_with(exe, "xray") && str_contains(exe, "dray")
}

} // verus!
