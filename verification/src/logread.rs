//! Paged reads of the application's log files.
//!
//! A caller inspects a log file window by window, forward from a position
//! or backward from the end.  The surrounding process seeks and reads the
//! raw window; this module validates the requested file name, computes
//! the byte range to read, and trims the window's ragged edge — the
//! leading partial line of a backward read, the trailing partial line of
//! a forward read.

use vstd::prelude::*;
use vstd::string::*;
use crate::tail::NEWLINE;
use crate::text::copy_range;

verus! {

/// The number of bytes served per window.
pub const DEFAULT_READ_SIZE: u64 = 100000;

/// Whether one character may appear in a requested log file name:
/// ASCII letters and digits, underscore, hyphen and dot only.
pub open spec fn allowed_filename_char(c: char) -> bool {
    ||| 'a' <= c <= 'z'
    ||| 'A' <= c <= 'Z'
    ||| '0' <= c <= '9'
    ||| c == '_'
    ||| c == '-'
    ||| c == '.'
}

/// Whether a requested log file name is acceptable: every character
/// allowed.  This keeps a request from naming a path outside the log
/// directory.
pub open spec fn valid_log_filename(name: Seq<char>) -> bool {
    forall|i: int| 0 <= i < name.len() ==> allowed_filename_char(name[i])
}

/// Check a requested log file name.
pub fn check_log_filename(name: &str) -> (r: bool)
    ensures
        r == valid_log_filename(name@),
{
    let len: usize = name.unicode_len();
    let mut i: usize = 0;
    while i < len
        invariant
            len == name@.len(),
            i <= len,
            forall|j: int| 0 <= j < i ==> allowed_filename_char(name@[j]),
        decreases len - i,
    {
        let c = name.get_char(i);
        let ok = ('a' <= c && c <= 'z') || ('A' <= c && c <= 'Z') || ('0' <= c && c <= '9') || c
            == '_' || c == '-' || c == '.';
        if !ok {
            return false;
        }
        i = i + 1;
    }
    true
}

/// The position a read starts from, clamped to the file: a negative
/// request means the end of the file for a backward read and the start
/// for a forward one.
pub open spec fn clamped_start(file_size: u64, start_position: i64, reverse: bool) -> int {
    if start_position < 0 {
        if reverse {
            file_size as int
        } else {
            0
        }
    } else if start_position as int > file_size as int {
        file_size as int
    } else {
        start_position as int
    }
}

/// The byte range one window read covers: one read size backward from
/// the start position, or one read size forward from it, clipped to the
/// file.
pub open spec fn read_range(file_size: u64, start_position: i64, reverse: bool, read_size: u64) -> (
    int,
    int,
) {
    let sp = clamped_start(file_size, start_position, reverse);
    if reverse {
        (if sp >= read_size {
            sp - read_size
        } else {
            0
        }, sp)
    } else {
        (sp, if sp + read_size <= file_size {
            sp + read_size
        } else {
            file_size as int
        })
    }
}

/// Compute the byte range to read for one window.
pub fn compute_read_range(file_size: u64, start_position: i64, reverse: bool, read_size: u64) -> (r:
    (u64, u64))
    ensures
        (r.0 as int, r.1 as int) == read_range(file_size, start_position, reverse, read_size),
        r.0 <= r.1 <= file_size,
{
    let sp: u64 = if start_position < 0 {
        if reverse {
            file_size
        } else {
            0
        }
    } else if start_position as u64 > file_size {
        file_size
    } else {
        start_position as u64
    };
    if reverse {
        let lo: u64 = if sp >= read_size {
            sp - read_size
        } else {
            0
        };
        (lo, sp)
    } else {
        let hi: u64 = if read_size <= file_size && sp <= file_size - read_size {
            sp + read_size
        } else {
            file_size
        };
        (sp, hi)
    }
}

/// The log files that a clear-all keeps (truncated rather than deleted):
/// the application's own rolling logs.
pub open spec fn preserved_log_file(name: Seq<char>) -> bool {
    ||| name == "dray.log"@
    ||| name == "web_interface.log"@
    ||| name == "web_server.log"@
    ||| name == "ray_server.log"@
    ||| name == "xray_access.log"@
    ||| name == "xray_error.log"@
}

/// Whether a clear-all truncates this file instead of deleting it.
pub fn is_preserved_log(name: &str) -> (r: bool)
    ensures
        r == preserved_log_file(name@),
{
    crate::text::str_equal(name, "dray.log") || crate::text::str_equal(name, "web_interface.log")
        || crate::text::str_equal(name, "web_server.log") || crate::text::str_equal(
        name,
        "ray_server.log",
    ) || crate::text::str_equal(name, "xray_access.log") || crate::text::str_equal(
        name,
        "xray_error.log",
    )
}

/// The index of the first newline of `s`, or `s.len()` when it has none.
pub open spec fn first_newline(s: Seq<u8>) -> int
    decreases s.len(),
{
    if s.len() == 0 {
        0
    } else if s[0] == NEWLINE {
        0
    } else {
        1 + first_newline(s.drop_first())
    }
}

/// The index of the last newline of `s`, or `-1` when it has none.
pub open spec fn last_newline(s: Seq<u8>) -> int
    decreases s.len(),
{
    if s.len() == 0 {
        -1
    } else if s.last() == NEWLINE {
        s.len() - 1
    } else {
        last_newline(s.drop_last())
    }
}

/// A window as served to the caller.  A full-size window was very likely
/// cut mid-line at one edge, so that edge is trimmed: a backward read
/// loses everything through its first newline, a forward read loses
/// everything after its last newline.  A window shorter than the read
/// size reached an edge of the file and is served whole.
pub open spec fn trimmed_window(raw: Seq<u8>, read_size: u64, reverse: bool) -> Seq<u8> {
    if raw.len() < read_size {
        raw
    } else if reverse {
        if first_newline(raw) == raw.len() {
            raw
        } else {
            raw.subrange(first_newline(raw) + 1, raw.len() as int)
        }
    } else {
        if last_newline(raw) == -1 {
            raw
        } else {
            raw.subrange(0, last_newline(raw))
        }
    }
}

proof fn lemma_first_newline_at(s: Seq<u8>, j: int)
    requires
        0 <= j < s.len(),
        s[j] == NEWLINE,
        forall|i: int| 0 <= i < j ==> s[i] != NEWLINE,
    ensures
        first_newline(s) == j,
    decreases s.len(),
{
    if j > 0 {
        lemma_first_newline_at(s.drop_first(), j - 1);
    }
}

proof fn lemma_first_newline_none(s: Seq<u8>)
    requires
        forall|i: int| 0 <= i < s.len() ==> s[i] != NEWLINE,
    ensures
        first_newline(s) == s.len(),
    decreases s.len(),
{
    if s.len() > 0 {
        lemma_first_newline_none(s.drop_first());
    }
}

proof fn lemma_last_newline_at(s: Seq<u8>, j: int)
    requires
        0 <= j < s.len(),
        s[j] == NEWLINE,
        forall|i: int| j < i < s.len() ==> s[i] != NEWLINE,
    ensures
        last_newline(s) == j,
    decreases s.len(),
{
    if j < s.len() - 1 {
        lemma_last_newline_at(s.drop_last(), j);
    }
}

proof fn lemma_last_newline_none(s: Seq<u8>)
    requires
        forall|i: int| 0 <= i < s.len() ==> s[i] != NEWLINE,
    ensures
        last_newline(s) == -1,
    decreases s.len(),
{
    if s.len() > 0 {
        lemma_last_newline_none(s.drop_last());
    }
}

/// Trim the ragged edge of one raw window.
pub fn trim_window(raw: &Vec<u8>, read_size: u64, reverse: bool) -> (r: Vec<u8>)
    ensures
        r@ == trimmed_window(raw@, read_size, reverse),
{
    if (raw.len() as u64) < read_size {
        return copy_range(raw, 0, raw.len());
    }
    if reverse {
        let mut k: usize = 0;
        while k < raw.len() && raw[k] != NEWLINE
            invariant
                k <= raw@.len(),
                forall|i: int| 0 <= i < k ==> raw@[i] != NEWLINE,
            decreases raw@.len() - k,
        {
            k = k + 1;
        }
        if k == raw.len() {
            proof {
                lemma_first_newline_none(raw@);
            }
            copy_range(raw, 0, raw.len())
        } else {
            proof {
                lemma_first_newline_at(raw@, k as int);
            }
            copy_range(raw, k + 1, raw.len())
        }
    } else {
        let mut k: usize = raw.len();
        while k > 0 && raw[k - 1] != NEWLINE
            invariant
                k <= raw@.len(),
                forall|i: int| k <= i < raw@.len() ==> raw@[i] != NEWLINE,
            decreases k,
        {
            k = k - 1;
        }
        if k == 0 {
            proof {
                lemma_last_newline_none(raw@);
            }
            copy_range(raw, 0, raw.len())
        } else {
            proof {
                lemma_last_newline_at(raw@, k - 1);
            }
            copy_range(raw, 0, k - 1)
        }
    }
}

} // verus!
