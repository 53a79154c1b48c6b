//! Parsing of configured command lines.
//!
//! The run, build and install commands are configured as single strings.
//! They are split into a program and its arguments by POSIX shell word
//! rules; a string the shell parser rejects (an unmatched quote) falls back
//! to plain whitespace splitting, so a configured command is never silently
//! dropped.

use vstd::prelude::*;

verus! {

/// A word list as the sequence of character sequences it holds.
pub open spec fn words_view(parts: Vec<String>) -> Seq<Seq<char>> {
    Seq::new(parts@.len(), |i: int| parts@[i]@)
}

/// The four ASCII whitespace characters the fallback splitter breaks on.
pub open spec fn is_space(c: char) -> bool {
    c == ' ' || c == '\t' || c == '\n' || c == '\r'
}

/// Length of the leading run of non-space characters.
pub open spec fn word_len(s: Seq<char>) -> int
    decreases s.len(),
{
    if s.len() == 0 || is_space(s[0]) {
        0
    } else {
        1 + word_len(s.drop_first())
    }
}

/// A word never runs past the end of the string.
proof fn lemma_word_len_bounds(s: Seq<char>)
    ensures
        0 <= word_len(s) <= s.len(),
    decreases s.len(),
{
    if s.len() > 0 && !is_space(s[0]) {
        lemma_word_len_bounds(s.drop_first());
    }
}

/// The words of `s`: maximal runs of non-space characters, in order.
pub open spec fn whitespace_split(s: Seq<char>) -> Seq<Seq<char>>
    decreases s.len(),
    via whitespace_split_decreases
{
    if s.len() == 0 {
        Seq::empty()
    } else if is_space(s[0]) {
        whitespace_split(s.drop_first())
    } else {
        seq![s.take(word_len(s))] + whitespace_split(s.skip(word_len(s)))
    }
}

#[via_fn]
proof fn whitespace_split_decreases(s: Seq<char>) {
    lemma_word_len_bounds(s);
    if s.len() > 0 && !is_space(s[0]) {
        lemma_word_len_bounds(s.drop_first());
        assert(word_len(s) == 1 + word_len(s.drop_first()));
    }
}

/// The leading word is as long as the run of non-space characters in front.
proof fn lemma_word_len_is_run(s: Seq<char>, m: int)
    requires
        0 <= m <= s.len(),
        forall|k: int| 0 <= k < m ==> !is_space(s[k]),
        m == s.len() || is_space(s[m]),
    ensures
        word_len(s) == m,
    decreases m,
{
    if m > 0 {
        assert(!is_space(s[0]));
        assert forall|k: int| 0 <= k < m - 1 implies !is_space(s.drop_first()[k]) by {
            assert(s.drop_first()[k] == s[k + 1]);
        }
        if m < s.len() {
            assert(s.drop_first()[m - 1] == s[m]);
        }
        lemma_word_len_is_run(s.drop_first(), m - 1);
    }
}

/// Whether shell word splitting accepts the string; it rejects exactly the
/// strings with an unmatched quote.
pub uninterp spec fn shell_split_accepts(s: Seq<char>) -> bool;

/// The words that shell word splitting yields on an accepted string.
pub uninterp spec fn shell_split_words(s: Seq<char>) -> Seq<Seq<char>>;

/// Relies on shell_words::split: it parses the line by POSIX shell word
/// rules, its result depends on the characters alone, and it errs exactly
/// on an unmatched quote.
#[verifier::external_body]
fn shell_split(s: &str) -> (r: Option<Vec<String>>)
    ensures
        r is Some == shell_split_accepts(s@),
        r matches Some(v) ==> words_view(v) == shell_split_words(s@),
{
    match shell_words::split(s) {
        Ok(v) => Some(v),
        Err(_) => None,
    }
}

/// The words a configured command string yields: the shell parse where it
/// is accepted, plain whitespace words otherwise.
pub open spec fn spec_parse_command(s: Seq<char>) -> Seq<Seq<char>> {
    if shell_split_accepts(s) {
        shell_split_words(s)
    } else {
        whitespace_split(s)
    }
}

/// Exec form of [`is_space`].
fn char_is_space(c: char) -> (r: bool)
    ensures
        r == is_space(c),
{
    c == ' ' || c == '\t' || c == '\n' || c == '\r'
}

/// Splits on ASCII whitespace: the fallback when the shell parse fails.
fn split_on_whitespace(s: &str) -> (parts: Vec<String>)
    ensures
        words_view(parts) == whitespace_split(s@),
{
    let n = s.unicode_len();
    let mut parts: Vec<String> = Vec::new();
    let mut i: usize = 0;
    proof {
        assert(s@.skip(0) =~= s@);
        assert(words_view(parts) + whitespace_split(s@) =~= whitespace_split(s@));
    }
    while i < n
        invariant
            0 <= i <= n == s@.len(),
            words_view(parts) + whitespace_split(s@.skip(i as int)) == whitespace_split(s@),
        decreases n - i,
    {
        let c = s.get_char(i);
        if char_is_space(c) {
            proof {
                assert(s@.skip(i as int).drop_first() =~= s@.skip(i as int + 1));
            }
            i = i + 1;
        } else {
            let ghost before = parts;
            let start = i;
            let mut j = i + 1;
            while j < n && !char_is_space(s.get_char(j))
                invariant
                    start < j <= n == s@.len(),
                    forall|k: int| start <= k < j ==> !is_space(s@[k]),
                decreases n - j,
            {
                j = j + 1;
            }
            let word = s.substring_char(start, j).to_owned();
            parts.push(word);
            proof {
                let rest = s@.skip(start as int);
                assert forall|k: int| 0 <= k < j - start implies !is_space(rest[k]) by {
                    assert(rest[k] == s@[k + start]);
                }
                if (j as int) < s@.len() {
                    assert(rest[j - start] == s@[j as int]);
                }
                lemma_word_len_is_run(rest, j - start);
                assert(rest.take(j - start) =~= s@.subrange(start as int, j as int));
                assert(rest.skip(j - start) =~= s@.skip(j as int));
                assert(whitespace_split(rest) == seq![s@.subrange(start as int, j as int)]
                    + whitespace_split(s@.skip(j as int)));
                assert(words_view(parts) =~= words_view(before).push(word@));
                assert(words_view(parts) + whitespace_split(s@.skip(j as int)) =~= words_view(
                    before,
                ) + whitespace_split(rest));
            }
            i = j;
        }
    }
    proof {
        assert(s@.skip(n as int) =~= Seq::<char>::empty());
        assert(words_view(parts) =~= words_view(parts) + whitespace_split(s@.skip(n as int)));
    }
    parts
}

/// Splits a configured command string into words: by shell rules where the
/// string parses, by plain whitespace otherwise.
pub fn parse_command(cmd: &str) -> (parts: Vec<String>)
    ensures
        words_view(parts) == spec_parse_command(cmd@),
{
    match shell_split(cmd) {
        Some(parts) => parts,
        None => split_on_whitespace(cmd),
    }
}

/// Splits a configured command string into the program to run and its
/// arguments.  Yields nothing exactly when the string holds no word at all.
pub fn command_parts(cmd: &str) -> (r: Option<(String, Vec<String>)>)
    ensures
        r is Some <==> spec_parse_command(cmd@).len() > 0,
        r matches Some((prog, args)) ==> prog@ == spec_parse_command(cmd@)[0] && words_view(args)
            == spec_parse_command(cmd@).drop_first(),
{
    let mut parts = parse_command(cmd);
    if parts.len() == 0 {
        None
    } else {
        let prog = parts.remove(0);
        proof {
            assert(words_view(parts) =~= spec_parse_command(cmd@).drop_first());
        }
        Some((prog, parts))
    }
}

} // verus!
