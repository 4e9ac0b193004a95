//! The system-proxy command scripts and their parsing.
//!
//! Proxies are switched by running `networksetup` with fixed arguments.
//! Each `enable_*` / `disable_*` function yields the newline-separated
//! script of commands to run; `parse_script` splits a script into lines
//! and each line into a program and its arguments.  Running the parsed
//! commands is the surrounding process's task.

use vstd::prelude::*;
use vstd::string::*;

verus! {

/// Whether a character separates words within a command line.
pub open spec fn is_word_space(c: char) -> bool {
    c == ' ' || c == '\t' || c == '\r'
}

/// The length of the run of word spaces at the front of `s`.
pub open spec fn space_run(s: Seq<char>) -> int
    decreases s.len(),
{
    if s.len() == 0 || !is_word_space(s[0]) {
        0
    } else {
        1 + space_run(s.drop_first())
    }
}

/// The length of the run of non-space characters at the front of `s`.
pub open spec fn word_run(s: Seq<char>) -> int
    decreases s.len(),
{
    if s.len() == 0 || is_word_space(s[0]) {
        0
    } else {
        1 + word_run(s.drop_first())
    }
}

pub proof fn lemma_space_run_bounds(s: Seq<char>)
    ensures
        0 <= space_run(s) <= s.len(),
    decreases s.len(),
{
    if s.len() > 0 && is_word_space(s[0]) {
        lemma_space_run_bounds(s.drop_first());
    }
}

pub proof fn lemma_word_run_bounds(s: Seq<char>)
    ensures
        0 <= word_run(s) <= s.len(),
    decreases s.len(),
{
    if s.len() > 0 && !is_word_space(s[0]) {
        lemma_word_run_bounds(s.drop_first());
    }
}

/// The words of one command line, split on runs of word spaces.
pub open spec fn split_words(s: Seq<char>) -> Seq<Seq<char>>
    decreases s.len(),
    via split_words_decreases
{
    let t = s.subrange(space_run(s), s.len() as int);
    if t.len() == 0 {
        Seq::empty()
    } else {
        seq![t.subrange(0, word_run(t))] + split_words(t.subrange(word_run(t), t.len() as int))
    }
}

#[via_fn]
proof fn split_words_decreases(s: Seq<char>) {
    lemma_space_run_bounds(s);
    let t = s.subrange(space_run(s), s.len() as int);
    lemma_word_run_bounds(t);
    if t.len() > 0 {
        lemma_space_run_max(s);
        assert(t[0] == s[space_run(s)]);
        lemma_word_run_bounds(t);
        lemma_word_run_bounds(t.drop_first());
        assert(word_run(t) == 1 + word_run(t.drop_first()));
    }
}

proof fn lemma_space_run_max(s: Seq<char>)
    ensures
        space_run(s) < s.len() ==> !is_word_space(s[space_run(s)]),
    decreases s.len(),
{
    if s.len() > 0 && is_word_space(s[0]) {
        lemma_space_run_bounds(s.drop_first());
        lemma_space_run_max(s.drop_first());
    }
}

pub proof fn lemma_space_run_is(s: Seq<char>, j: int)
    requires
        0 <= j <= s.len(),
        forall|i: int| 0 <= i < j ==> is_word_space(s[i]),
        j == s.len() || !is_word_space(s[j]),
    ensures
        space_run(s) == j,
    decreases s.len(),
{
    if j > 0 {
        lemma_space_run_is(s.drop_first(), j - 1);
    }
}

proof fn lemma_word_run_is(s: Seq<char>, j: int)
    requires
        0 <= j <= s.len(),
        forall|i: int| 0 <= i < j ==> !is_word_space(s[i]),
        j == s.len() || is_word_space(s[j]),
    ensures
        word_run(s) == j,
    decreases s.len(),
{
    if j > 0 {
        lemma_word_run_is(s.drop_first(), j - 1);
    }
}

/// Whether a character is a word space, as executable code.
pub fn is_word_space_char(c: char) -> (r: bool)
    ensures
        r == is_word_space(c),
{
    c == ' ' || c == '\t' || c == '\r'
}

/// Split one command line into its whitespace-separated words.
pub fn split_line_words(line: &str) -> (r: Vec<String>)
    ensures
        r@.len() == split_words(line@).len(),
        forall|q: int| 0 <= q < r@.len() ==> r@[q]@ == split_words(line@)[q],
{
    let len: usize = line.unicode_len();
    let mut words: Vec<String> = Vec::new();
    let mut i: usize = 0;
    proof {
        assert(line@.subrange(0, len as int) =~= line@);
        assert(split_words(line@).skip(0) =~= split_words(line@));
    }
    while i < len
        invariant
            len == line@.len(),
            i <= len,
            words@.len() <= split_words(line@).len(),
            split_words(line@.subrange(i as int, len as int)) =~= split_words(line@).skip(
                words@.len() as int,
            ),
            forall|q: int| 0 <= q < words@.len() ==> words@[q]@ == split_words(line@)[q],
        decreases len - i,
    {
        let ghost suffix = line@.subrange(i as int, len as int);
        let mut j: usize = i;
        while j < len && is_word_space_char(line.get_char(j))
            invariant
                len == line@.len(),
                i <= j <= len,
                forall|q: int| i <= q < j ==> is_word_space(line@[q]),
            decreases len - j,
        {
            j = j + 1;
        }
        proof {
            lemma_space_run_is(suffix, j - i);
        }
        if j == len {
            proof {
                assert(suffix.subrange(space_run(suffix), suffix.len() as int).len() == 0);
            }
            i = j;
        } else {
            let ghost t = line@.subrange(j as int, len as int);
            proof {
                assert(t =~= suffix.subrange(space_run(suffix), suffix.len() as int));
            }
            let mut k: usize = j;
            while k < len && !is_word_space_char(line.get_char(k))
                invariant
                    len == line@.len(),
                    j <= k <= len,
                    forall|q: int| j <= q < k ==> !is_word_space(line@[q]),
                decreases len - k,
            {
                k = k + 1;
            }
            proof {
                lemma_word_run_is(t, k - j);
            }
            let word = String::from_str(line.substring_char(j, k));
            proof {
                let all = split_words(line@);
                let m = words@.len() as int;
                assert(t.subrange(0, word_run(t)) =~= line@.subrange(j as int, k as int));
                assert(t.subrange(word_run(t), t.len() as int) =~= line@.subrange(
                    k as int,
                    len as int,
                ));
                let rest = split_words(line@.subrange(k as int, len as int));
                assert(split_words(suffix) =~= seq![word@] + rest);
                assert(all.skip(m)[0] == all[m]);
                assert(word@ == all[m]);
                assert((seq![word@] + rest).drop_first() =~= rest);
                assert(all.skip(m).drop_first() =~= all.skip(m + 1));
                assert(rest =~= all.skip(m + 1));
            }
            words.push(word);
            i = k;
        }
    }
    proof {
        assert(line@.subrange(len as int, len as int).len() == 0);
        lemma_space_run_bounds(line@.subrange(len as int, len as int));
        assert(split_words(line@).skip(words@.len() as int).len() == 0);
    }
    words
}

/// The index of the first line break of `s`, or `s.len()` when it has
/// none.
pub open spec fn line_break(s: Seq<char>) -> int
    decreases s.len(),
{
    if s.len() == 0 {
        0
    } else if s[0] == '\n' {
        0
    } else {
        1 + line_break(s.drop_first())
    }
}

pub proof fn lemma_line_break_bounds(s: Seq<char>)
    ensures
        0 <= line_break(s) <= s.len(),
        line_break(s) < s.len() ==> s[line_break(s)] == '\n',
    decreases s.len(),
{
    if s.len() > 0 && s[0] != '\n' {
        lemma_line_break_bounds(s.drop_first());
    }
}

pub proof fn lemma_line_break_is(s: Seq<char>, j: int)
    requires
        0 <= j <= s.len(),
        forall|i: int| 0 <= i < j ==> s[i] != '\n',
        j == s.len() || s[j] == '\n',
    ensures
        line_break(s) == j,
    decreases s.len(),
{
    if j > 0 {
        lemma_line_break_is(s.drop_first(), j - 1);
    }
}

/// The lines of a script, split on line breaks.
pub open spec fn split_lines(s: Seq<char>) -> Seq<Seq<char>>
    decreases s.len(),
    via split_lines_decreases
{
    let n = line_break(s);
    if n == s.len() {
        seq![s]
    } else {
        seq![s.subrange(0, n)] + split_lines(s.subrange(n + 1, s.len() as int))
    }
}

#[via_fn]
proof fn split_lines_decreases(s: Seq<char>) {
    lemma_line_break_bounds(s);
}

/// Split a script into its lines.
pub fn split_script_lines(script: &str) -> (r: Vec<String>)
    ensures
        r@.len() == split_lines(script@).len(),
        forall|q: int| 0 <= q < r@.len() ==> r@[q]@ == split_lines(script@)[q],
{
    let len: usize = script.unicode_len();
    let mut lines: Vec<String> = Vec::new();
    let mut i: usize = 0;
    proof {
        assert(script@.subrange(0, len as int) =~= script@);
        assert(split_lines(script@).skip(0) =~= split_lines(script@));
    }
    loop
        invariant
            len == script@.len(),
            i <= len,
            lines@.len() <= split_lines(script@).len(),
            split_lines(script@.subrange(i as int, len as int)) =~= split_lines(script@).skip(
                lines@.len() as int,
            ),
            forall|q: int| 0 <= q < lines@.len() ==> lines@[q]@ == split_lines(script@)[q],
        ensures
            lines@.len() == split_lines(script@).len(),
            forall|q: int| 0 <= q < lines@.len() ==> lines@[q]@ == split_lines(script@)[q],
        decreases len - i + 1,
    {
        let ghost suffix = script@.subrange(i as int, len as int);
        let mut j: usize = i;
        while j < len && script.get_char(j) != '\n'
            invariant
                len == script@.len(),
                i <= j <= len,
                forall|q: int| i <= q < j ==> script@[q] != '\n',
            decreases len - j,
        {
            j = j + 1;
        }
        proof {
            lemma_line_break_is(suffix, j - i);
        }
        let line = String::from_str(script.substring_char(i, j));
        proof {
            let all = split_lines(script@);
            let m = lines@.len() as int;
            assert(line@ =~= suffix.subrange(0, line_break(suffix)));
            if j < len {
                assert(suffix.subrange(line_break(suffix) + 1, suffix.len() as int) =~= script@
                    .subrange(j + 1, len as int));
                assert(split_lines(suffix) =~= seq![line@] + split_lines(
                    script@.subrange(j + 1, len as int),
                ));
            } else {
                assert(split_lines(suffix) =~= seq![line@]);
            }
            assert(all.skip(m)[0] == all[m]);
            assert(line@ == all[m]);
        }
        lines.push(line);
        if j == len {
            proof {
                assert(split_lines(script@).skip(lines@.len() as int).len() == 0);
            }
            return lines;
        }
        proof {
            let all = split_lines(script@);
            let m = lines@.len() as int;
            let rest = split_lines(script@.subrange(j + 1, len as int));
            assert((seq![line@] + rest).drop_first() =~= rest);
            assert(all.skip(m - 1).drop_first() =~= all.skip(m));
            assert(rest =~= all.skip(m));
        }
        i = j + 1;
    }
}

/// How one line of a command script parses.
pub enum LineParse {
    /// Nothing but whitespace: skipped silently.
    Blank,
    /// A single word: not a runnable command, reported as a failure.
    Invalid,
    /// A program and at least one argument.
    Run { program: String, args: Vec<String> },
}

/// Whether `p` is the correct parse of the line `lv`: blank for no
/// words, invalid for one word, and otherwise the first word as the
/// program and the rest as its arguments.
pub open spec fn parse_matches(p: LineParse, lv: Seq<char>) -> bool {
    let ws = split_words(lv);
    &&& (ws.len() == 0 <==> p is Blank)
    &&& (ws.len() == 1 <==> p is Invalid)
    &&& ws.len() >= 2 ==> (p matches LineParse::Run { program, args } && {
        &&& program@ == ws[0]
        &&& args@.len() == ws.len() - 1
        &&& forall|q: int| 0 <= q < args@.len() ==> args@[q]@ == ws[q + 1]
    })
}

/// Parse one line of a command script.
pub fn parse_command_line(line: &str) -> (r: LineParse)
    ensures
        parse_matches(r, line@),
{
    let words = split_line_words(line);
    if words.len() == 0 {
        LineParse::Blank
    } else if words.len() == 1 {
        LineParse::Invalid
    } else {
        let program = words[0].clone();
        let mut args: Vec<String> = Vec::new();
        let mut q: usize = 1;
        while q < words.len()
            invariant
                1 <= q <= words@.len(),
                args@.len() == q - 1,
                forall|p: int| 0 <= p < args@.len() ==> args@[p]@ == words@[p + 1]@,
            decreases words@.len() - q,
        {
            args.push(words[q].clone());
            q = q + 1;
        }
        LineParse::Run { program, args }
    }
}

/// Parse a whole command script, one parse per line.
pub fn parse_script(script: &str) -> (r: Vec<LineParse>)
    ensures
        r@.len() == split_lines(script@).len(),
        forall|q: int| 0 <= q < r@.len() ==> parse_matches(r@[q], split_lines(script@)[q]),
{
    let lines = split_script_lines(script);
    let mut parsed: Vec<LineParse> = Vec::new();
    let mut q: usize = 0;
    while q < lines.len()
        invariant
            q <= lines@.len(),
            lines@.len() == split_lines(script@).len(),
            forall|p: int| 0 <= p < lines@.len() ==> lines@[p]@ == split_lines(script@)[p],
            parsed@.len() == q,
            forall|p: int| 0 <= p < parsed@.len() ==> parse_matches(
                parsed@[p],
                split_lines(script@)[p],
            ),
        decreases lines@.len() - q,
    {
        let p = parse_command_line(lines[q].as_str());
        parsed.push(p);
        q = q + 1;
    }
    parsed
}

/// The script that routes traffic through the proxy auto-configuration
/// URL and switches that mode on.
pub fn enable_auto_proxy() -> (r: String)
    ensures
        r@
            == "networksetup -setautoproxyurl Wi-Fi http://127.0.0.1:18687/dray/proxy.js\nnetworksetup -setautoproxystate Wi-Fi on"@,
{
    String::from_str(
        "networksetup -setautoproxyurl Wi-Fi http://127.0.0.1:18687/dray/proxy.js\nnetworksetup -setautoproxystate Wi-Fi on",
    )
}

/// The script that points the SOCKS proxy at the local ray port and
/// switches it on.
pub fn enable_socks_proxy() -> (r: String)
    ensures
        r@
            == "networksetup -setsocksfirewallproxy Wi-Fi 127.0.0.1 1086\nnetworksetup -setsocksfirewallproxystate Wi-Fi on"@,
{
    String::from_str(
        "networksetup -setsocksfirewallproxy Wi-Fi 127.0.0.1 1086\nnetworksetup -setsocksfirewallproxystate Wi-Fi on",
    )
}

/// The script that points the web proxy at the local ray port and
/// switches it on.
pub fn enable_web_proxy() -> (r: String)
    ensures
        r@
            == "networksetup -setwebproxy Wi-Fi 127.0.0.1 1089\nnetworksetup -setwebproxystate Wi-Fi on"@,
{
    String::from_str(
        "networksetup -setwebproxy Wi-Fi 127.0.0.1 1089\nnetworksetup -setwebproxystate Wi-Fi on",
    )
}

/// The script that points the secure web proxy at the local ray port and
/// switches it on.
pub fn enable_secure_web_proxy() -> (r: String)
    ensures
        r@
            == "networksetup -setsecurewebproxy Wi-Fi 127.0.0.1 1089\nnetworksetup -setsecurewebproxystate Wi-Fi on"@,
{
    String::from_str(
        "networksetup -setsecurewebproxy Wi-Fi 127.0.0.1 1089\nnetworksetup -setsecurewebproxystate Wi-Fi on",
    )
}

/// The script that switches every proxy mode off.
pub fn disable_proxies() -> (r: String)
    ensures
        r@
            == "networksetup -setautoproxystate Wi-Fi off\nnetworksetup -setsocksfirewallproxystate Wi-Fi off\nnetworksetup -setwebproxystate Wi-Fi off\nnetworksetup -setsecurewebproxystate Wi-Fi off"@,
{
    String::from_str(
        "networksetup -setautoproxystate Wi-Fi off\nnetworksetup -setsocksfirewallproxystate Wi-Fi off\nnetworksetup -setwebproxystate Wi-Fi off\nnetworksetup -setsecurewebproxystate Wi-Fi off",
    )
}

} // verus!
