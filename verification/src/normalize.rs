//! The content normalizer: strips platform markup from a message's text and
//! classifies the residual's source language.
//!
//! Passes run in a fixed order — broadcast mentions, user/role/channel
//! mentions, custom emoji tokens, dynamic timestamp tokens, bare URLs, then
//! fenced code blocks (multi-line, greedy) — and the result is trimmed.
//! Each pass removes the leftmost, non-overlapping occurrences of its token
//! in one scan of its input. The digit and word classes inside the tokens
//! are deliberately ASCII — narrower than a general word class, but the
//! platform's ids and emoji names are ASCII — while whitespace, which
//! bounds a URL and is trimmed, is the full Unicode White_Space set.
//!
//! A text whose residual is empty or has no alphabetic character offers
//! nothing to translate: callers treat that as a silent skip, not an error.

use vstd::prelude::*;

use crate::lang::{detect_language, other_lang, spec_detect_language, TargetLanguage};

verus! {

// ---------------------------------------------------------------------------
// Character classes. Digits and word characters, which occur only inside
// the platform's markup tokens, are ASCII; whitespace is Unicode
// White_Space.
// ---------------------------------------------------------------------------
pub open spec fn is_digit_char(c: char) -> bool {
    0x30 <= (c as u32) <= 0x39
}

pub open spec fn is_word_char(c: char) -> bool {
    is_digit_char(c) || (0x41 <= (c as u32) <= 0x5A) || (0x61 <= (c as u32) <= 0x7A) || c == '_'
}

/// The Unicode White_Space property: the horizontal and vertical spaces,
/// the line and paragraph separators, and the fixed-width spaces.
pub open spec fn is_space_char(c: char) -> bool {
    ||| 0x09 <= (c as u32) <= 0x0D
    ||| c == ' '
    ||| (c as u32) == 0x85
    ||| (c as u32) == 0xA0
    ||| (c as u32) == 0x1680
    ||| 0x2000 <= (c as u32) <= 0x200A
    ||| (c as u32) == 0x2028
    ||| (c as u32) == 0x2029
    ||| (c as u32) == 0x202F
    ||| (c as u32) == 0x205F
    ||| (c as u32) == 0x3000
}

fn char_is_digit(c: char) -> (r: bool)
    ensures
        r == is_digit_char(c),
{
    let u = c as u32;
    0x30 <= u && u <= 0x39
}

fn char_is_word(c: char) -> (r: bool)
    ensures
        r == is_word_char(c),
{
    let u = c as u32;
    (0x30 <= u && u <= 0x39) || (0x41 <= u && u <= 0x5A) || (0x61 <= u && u <= 0x7A) || c == '_'
}

fn char_is_space(c: char) -> (r: bool)
    ensures
        r == is_space_char(c),
{
    let u = c as u32;
    (0x09 <= u && u <= 0x0D) || u == 0x20 || u == 0x85 || u == 0xA0 || u == 0x1680 || (0x2000 <= u
        && u <= 0x200A) || u == 0x2028 || u == 0x2029 || u == 0x202F || u == 0x205F || u == 0x3000
}

// ---------------------------------------------------------------------------
// Maximal runs of a class, as the index just past the run.
// ---------------------------------------------------------------------------
pub open spec fn digit_run_end(s: Seq<char>, i: int) -> int
    decreases s.len() - i,
        when 0 <= i <= s.len()
{
    if i < s.len() && is_digit_char(s[i]) {
        digit_run_end(s, i + 1)
    } else {
        i
    }
}

pub open spec fn word_run_end(s: Seq<char>, i: int) -> int
    decreases s.len() - i,
        when 0 <= i <= s.len()
{
    if i < s.len() && is_word_char(s[i]) {
        word_run_end(s, i + 1)
    } else {
        i
    }
}

pub open spec fn nonspace_run_end(s: Seq<char>, i: int) -> int
    decreases s.len() - i,
        when 0 <= i <= s.len()
{
    if i < s.len() && !is_space_char(s[i]) {
        nonspace_run_end(s, i + 1)
    } else {
        i
    }
}

pub open spec fn space_run_end(s: Seq<char>, i: int) -> int
    decreases s.len() - i,
        when 0 <= i <= s.len()
{
    if i < s.len() && is_space_char(s[i]) {
        space_run_end(s, i + 1)
    } else {
        i
    }
}

proof fn lemma_digit_run_end_bounds(s: Seq<char>, i: int)
    requires
        0 <= i <= s.len(),
    ensures
        i <= digit_run_end(s, i) <= s.len(),
    decreases s.len() - i,
{
    if i < s.len() && is_digit_char(s[i]) {
        lemma_digit_run_end_bounds(s, i + 1);
    }
}

proof fn lemma_word_run_end_bounds(s: Seq<char>, i: int)
    requires
        0 <= i <= s.len(),
    ensures
        i <= word_run_end(s, i) <= s.len(),
    decreases s.len() - i,
{
    if i < s.len() && is_word_char(s[i]) {
        lemma_word_run_end_bounds(s, i + 1);
    }
}

proof fn lemma_nonspace_run_end_bounds(s: Seq<char>, i: int)
    requires
        0 <= i <= s.len(),
    ensures
        i <= nonspace_run_end(s, i) <= s.len(),
    decreases s.len() - i,
{
    if i < s.len() && !is_space_char(s[i]) {
        lemma_nonspace_run_end_bounds(s, i + 1);
    }
}

fn digit_run_from(s: &Vec<char>, i: usize) -> (e: usize)
    requires
        i <= s@.len(),
    ensures
        e == digit_run_end(s@, i as int),
        i <= e <= s@.len(),
    decreases s@.len() - i,
{
    if i < s.len() && char_is_digit(s[i]) {
        digit_run_from(s, i + 1)
    } else {
        i
    }
}

fn word_run_from(s: &Vec<char>, i: usize) -> (e: usize)
    requires
        i <= s@.len(),
    ensures
        e == word_run_end(s@, i as int),
        i <= e <= s@.len(),
    decreases s@.len() - i,
{
    if i < s.len() && char_is_word(s[i]) {
        word_run_from(s, i + 1)
    } else {
        i
    }
}

fn nonspace_run_from(s: &Vec<char>, i: usize) -> (e: usize)
    requires
        i <= s@.len(),
    ensures
        e == nonspace_run_end(s@, i as int),
        i <= e <= s@.len(),
    decreases s@.len() - i,
{
    if i < s.len() && !char_is_space(s[i]) {
        nonspace_run_from(s, i + 1)
    } else {
        i
    }
}

fn space_run_from(s: &Vec<char>, i: usize) -> (e: usize)
    requires
        i <= s@.len(),
    ensures
        e == space_run_end(s@, i as int),
        i <= e <= s@.len(),
    decreases s@.len() - i,
{
    if i < s.len() && char_is_space(s[i]) {
        space_run_from(s, i + 1)
    } else {
        i
    }
}

// ---------------------------------------------------------------------------
// The five single-scan token kinds, with the length each one matches at a
// given position. A pass removes the leftmost, non-overlapping matches.
// ---------------------------------------------------------------------------
/// The token kinds removed by the single-scan passes.
#[derive(Clone, Copy, PartialEq, Eq, Structural)]
pub enum Token {
    /// `@everyone` or `@here`.
    Everyone,
    /// `<@id>`, `<@&id>` or `<#id>` with at least one digit.
    Mention,
    /// `<:name:id>` with a non-empty word name and at least one digit.
    Emoji,
    /// `<t:id>` or `<t:id:F>` with at least one digit and a one-word style.
    Timestamp,
    /// `http://` or `https://` followed by at least one non-space character.
    Url,
}

pub open spec fn everyone_match_len(s: Seq<char>, i: int) -> Option<int> {
    if i + 9 <= s.len() && s[i] == '@' && s[i + 1] == 'e' && s[i + 2] == 'v' && s[i + 3] == 'e'
        && s[i + 4] == 'r' && s[i + 5] == 'y' && s[i + 6] == 'o' && s[i + 7] == 'n' && s[i + 8]
        == 'e' {
        Some(9)
    } else if i + 5 <= s.len() && s[i] == '@' && s[i + 1] == 'h' && s[i + 2] == 'e' && s[i + 3]
        == 'r' && s[i + 4] == 'e' {
        Some(5)
    } else {
        None
    }
}

pub open spec fn mention_match_len(s: Seq<char>, i: int) -> Option<int> {
    if i + 2 <= s.len() && s[i] == '<' && (s[i + 1] == '@' || s[i + 1] == '#') {
        let d0 = if s[i + 1] == '@' && i + 2 < s.len() && s[i + 2] == '&' {
            i + 3
        } else {
            i + 2
        };
        let e = digit_run_end(s, d0);
        if e > d0 && e < s.len() && s[e] == '>' {
            Some(e + 1 - i)
        } else {
            None
        }
    } else {
        None
    }
}

pub open spec fn emoji_match_len(s: Seq<char>, i: int) -> Option<int> {
    if i + 2 <= s.len() && s[i] == '<' && s[i + 1] == ':' {
        let w = word_run_end(s, i + 2);
        if w > i + 2 && w + 1 < s.len() && s[w] == ':' {
            let e = digit_run_end(s, w + 1);
            if e > w + 1 && e < s.len() && s[e] == '>' {
                Some(e + 1 - i)
            } else {
                None
            }
        } else {
            None
        }
    } else {
        None
    }
}

pub open spec fn timestamp_match_len(s: Seq<char>, i: int) -> Option<int> {
    if i + 3 <= s.len() && s[i] == '<' && s[i + 1] == 't' && s[i + 2] == ':' {
        let e = digit_run_end(s, i + 3);
        if e == i + 3 {
            None
        } else if e + 2 < s.len() && s[e] == ':' && is_word_char(s[e + 1]) && s[e + 2] == '>' {
            Some(e + 3 - i)
        } else if e + 1 < s.len() && is_word_char(s[e]) && s[e + 1] == '>' {
            Some(e + 2 - i)
        } else if e - (i + 3) >= 2 && e < s.len() && s[e] == '>' {
            Some(e + 1 - i)
        } else {
            None
        }
    } else {
        None
    }
}

pub open spec fn url_match_len(s: Seq<char>, i: int) -> Option<int> {
    if i + 4 <= s.len() && s[i] == 'h' && s[i + 1] == 't' && s[i + 2] == 't' && s[i + 3] == 'p' {
        let p = if i + 4 < s.len() && s[i + 4] == 's' {
            i + 5
        } else {
            i + 4
        };
        if p + 3 <= s.len() && s[p] == ':' && s[p + 1] == '/' && s[p + 2] == '/' {
            let e = nonspace_run_end(s, p + 3);
            if e > p + 3 {
                Some(e - i)
            } else {
                None
            }
        } else {
            None
        }
    } else {
        None
    }
}

pub open spec fn token_match_len(t: Token, s: Seq<char>, i: int) -> Option<int> {
    match t {
        Token::Everyone => everyone_match_len(s, i),
        Token::Mention => mention_match_len(s, i),
        Token::Emoji => emoji_match_len(s, i),
        Token::Timestamp => timestamp_match_len(s, i),
        Token::Url => url_match_len(s, i),
    }
}

proof fn lemma_token_match_bounds(t: Token, s: Seq<char>, i: int)
    requires
        0 <= i <= s.len(),
    ensures
        token_match_len(t, s, i) is Some ==> 1 <= token_match_len(t, s, i)->0 && i
            + token_match_len(t, s, i)->0 <= s.len(),
{
    match t {
        Token::Everyone => {
        },
        Token::Mention => {
            if i + 2 <= s.len() && s[i] == '<' && (s[i + 1] == '@' || s[i + 1] == '#') {
                let d0 = if s[i + 1] == '@' && i + 2 < s.len() && s[i + 2] == '&' {
                    i + 3
                } else {
                    i + 2
                };
                lemma_digit_run_end_bounds(s, d0);
            }
        },
        Token::Emoji => {
            if i + 2 <= s.len() && s[i] == '<' && s[i + 1] == ':' {
                lemma_word_run_end_bounds(s, i + 2);
                let w = word_run_end(s, i + 2);
                if w + 1 <= s.len() {
                    lemma_digit_run_end_bounds(s, w + 1);
                }
            }
        },
        Token::Timestamp => {
            if i + 3 <= s.len() && s[i] == '<' && s[i + 1] == 't' && s[i + 2] == ':' {
                lemma_digit_run_end_bounds(s, i + 3);
            }
        },
        Token::Url => {
            if i + 4 <= s.len() && s[i] == 'h' && s[i + 1] == 't' && s[i + 2] == 't' && s[i + 3]
                == 'p' {
                let p = if i + 4 < s.len() && s[i + 4] == 's' {
                    i + 5
                } else {
                    i + 4
                };
                if p + 3 <= s.len() {
                    lemma_nonspace_run_end_bounds(s, p + 3);
                }
            }
        },
    }
}

fn match_token_at(s: &Vec<char>, t: Token, i: usize) -> (r: Option<usize>)
    requires
        i < s@.len(),
    ensures
        (r is Some) == (token_match_len(t, s@, i as int) is Some),
        r is Some ==> r->0 as int == token_match_len(t, s@, i as int)->0,
{
    let n = s.len();
    match t {
        Token::Everyone => {
            if n - i >= 9 && s[i] == '@' && s[i + 1] == 'e' && s[i + 2] == 'v' && s[i + 3] == 'e'
                && s[i + 4] == 'r' && s[i + 5] == 'y' && s[i + 6] == 'o' && s[i + 7] == 'n' && s[i
                + 8] == 'e' {
                Some(9)
            } else if n - i >= 5 && s[i] == '@' && s[i + 1] == 'h' && s[i + 2] == 'e' && s[i + 3]
                == 'r' && s[i + 4] == 'e' {
                Some(5)
            } else {
                None
            }
        },
        Token::Mention => {
            if n - i >= 2 && s[i] == '<' && (s[i + 1] == '@' || s[i + 1] == '#') {
                let d0 = if s[i + 1] == '@' && n - i > 2 && s[i + 2] == '&' {
                    i + 3
                } else {
                    i + 2
                };
                let e = digit_run_from(s, d0);
                if e > d0 && e < n && s[e] == '>' {
                    Some(e + 1 - i)
                } else {
                    None
                }
            } else {
                None
            }
        },
        Token::Emoji => {
            if n - i >= 2 && s[i] == '<' && s[i + 1] == ':' {
                let w = word_run_from(s, i + 2);
                if w > i + 2 && n - w > 1 && s[w] == ':' {
                    let e = digit_run_from(s, w + 1);
                    if e > w + 1 && e < n && s[e] == '>' {
                        Some(e + 1 - i)
                    } else {
                        None
                    }
                } else {
                    None
                }
            } else {
                None
            }
        },
        Token::Timestamp => {
            if n - i >= 3 && s[i] == '<' && s[i + 1] == 't' && s[i + 2] == ':' {
                let e = digit_run_from(s, i + 3);
                if e == i + 3 {
                    None
                } else if n - e > 2 && s[e] == ':' && char_is_word(s[e + 1]) && s[e + 2] == '>' {
                    Some(e + 3 - i)
                } else if n - e > 1 && char_is_word(s[e]) && s[e + 1] == '>' {
                    Some(e + 2 - i)
                } else if e - (i + 3) >= 2 && e < n && s[e] == '>' {
                    Some(e + 1 - i)
                } else {
                    None
                }
            } else {
                None
            }
        },
        Token::Url => {
            if n - i >= 4 && s[i] == 'h' && s[i + 1] == 't' && s[i + 2] == 't' && s[i + 3] == 'p' {
                let p = if n - i > 4 && s[i + 4] == 's' {
                    i + 5
                } else {
                    i + 4
                };
                if n - p >= 3 && s[p] == ':' && s[p + 1] == '/' && s[p + 2] == '/' {
                    let e = nonspace_run_from(s, p + 3);
                    if e > p + 3 {
                        Some(e - i)
                    } else {
                        None
                    }
                } else {
                    None
                }
            } else {
                None
            }
        },
    }
}

// ---------------------------------------------------------------------------
// One pass: remove the leftmost, non-overlapping matches of a token.
// ---------------------------------------------------------------------------
pub open spec fn strip_from(t: Token, s: Seq<char>, i: int) -> Seq<char>
    decreases s.len() - i,
        when 0 <= i <= s.len()
        via strip_from_decreases
{
    if i >= s.len() {
        Seq::empty()
    } else {
        match token_match_len(t, s, i) {
            Some(l) => strip_from(t, s, i + l),
            None => seq![s[i]] + strip_from(t, s, i + 1),
        }
    }
}

#[via_fn]
proof fn strip_from_decreases(t: Token, s: Seq<char>, i: int) {
    if 0 <= i < s.len() {
        lemma_token_match_bounds(t, s, i);
    }
}

pub open spec fn stripped(t: Token, s: Seq<char>) -> Seq<char> {
    strip_from(t, s, 0)
}

fn strip_token(s: &Vec<char>, t: Token) -> (r: Vec<char>)
    ensures
        r@ == stripped(t, s@),
{
    let mut out: Vec<char> = Vec::new();
    let mut i: usize = 0;
    while i < s.len()
        invariant
            i <= s@.len(),
            stripped(t, s@) == out@ + strip_from(t, s@, i as int),
        decreases s@.len() - i,
    {
        match match_token_at(s, t, i) {
            Some(l) => {
                proof {
                    lemma_token_match_bounds(t, s@, i as int);
                    assert(strip_from(t, s@, i as int) == strip_from(t, s@, i + l));
                }
                i = i + l;
            },
            None => {
                proof {
                    assert(strip_from(t, s@, i as int) == seq![s@[i as int]] + strip_from(
                        t,
                        s@,
                        i + 1,
                    ));
                    assert(out@ + (seq![s@[i as int]] + strip_from(t, s@, i + 1)) =~= out@.push(
                        s@[i as int],
                    ) + strip_from(t, s@, i + 1));
                }
                out.push(s[i]);
                i = i + 1;
            },
        }
    }
    proof {
        assert(strip_from(t, s@, i as int) =~= Seq::<char>::empty());
        assert(out@ + Seq::<char>::empty() =~= out@);
    }
    out
}

// ---------------------------------------------------------------------------
// Fenced code blocks: one greedy removal from the first fence to the last.
// ---------------------------------------------------------------------------
pub open spec fn fence_at(s: Seq<char>, i: int) -> bool {
    0 <= i && i + 3 <= s.len() && s[i] == '`' && s[i + 1] == '`' && s[i + 2] == '`'
}

/// The first fence at or after `i`, or the length when there is none.
pub open spec fn first_fence_from(s: Seq<char>, i: int) -> int
    decreases s.len() - i,
        when 0 <= i <= s.len()
{
    if i + 3 > s.len() {
        s.len() as int
    } else if fence_at(s, i) {
        i
    } else {
        first_fence_from(s, i + 1)
    }
}

/// The last fence at or before `j`, or -1 when there is none.
pub open spec fn last_fence_from(s: Seq<char>, j: int) -> int
    decreases j + 1,
        when -1 <= j
{
    if j < 0 {
        -1
    } else if fence_at(s, j) {
        j
    } else {
        last_fence_from(s, j - 1)
    }
}

/// Remove the one greedy fenced block: everything from the first fence to
/// the end of the last fence that starts after it. A text with fewer than
/// two separate fences is unchanged.
pub open spec fn strip_code_block(s: Seq<char>) -> Seq<char> {
    let f = first_fence_from(s, 0);
    if f == s.len() {
        s
    } else {
        let p = last_fence_from(s, s.len() - 3);
        if p >= f + 3 {
            s.subrange(0, f) + s.subrange(p + 3, s.len() as int)
        } else {
            s
        }
    }
}

proof fn lemma_first_fence_bounds(s: Seq<char>, i: int)
    requires
        0 <= i <= s.len(),
    ensures
        i <= first_fence_from(s, i) <= s.len(),
        first_fence_from(s, i) < s.len() ==> fence_at(s, first_fence_from(s, i)),
    decreases s.len() - i,
{
    if i + 3 <= s.len() && !fence_at(s, i) {
        lemma_first_fence_bounds(s, i + 1);
    }
}

fn first_fence(s: &Vec<char>, i: usize) -> (r: usize)
    requires
        i <= s@.len(),
    ensures
        r as int == first_fence_from(s@, i as int),
        i <= r <= s@.len(),
    decreases s@.len() - i,
{
    let n = s.len();
    if n - i < 3 {
        n
    } else if s[i] == '`' && s[i + 1] == '`' && s[i + 2] == '`' {
        i
    } else {
        first_fence(s, i + 1)
    }
}

fn last_fence(s: &Vec<char>, j: usize) -> (r: Option<usize>)
    requires
        j + 3 <= s@.len(),
    ensures
        (r is Some) == (last_fence_from(s@, j as int) >= 0),
        r is Some ==> r->0 as int == last_fence_from(s@, j as int) && r->0 <= j,
    decreases j,
{
    let n = s.len();
    if s[j] == '`' && s[j + 1] == '`' && s[j + 2] == '`' {
        Some(j)
    } else if j == 0 {
        proof {
            assert(last_fence_from(s@, 0) == -1) by {
                reveal_with_fuel(last_fence_from, 2);
            }
        }
        None
    } else {
        last_fence(s, j - 1)
    }
}

fn copy_range(s: &Vec<char>, a: usize, b: usize) -> (r: Vec<char>)
    requires
        a <= b <= s@.len(),
    ensures
        r@ == s@.subrange(a as int, b as int),
{
    let mut out: Vec<char> = Vec::new();
    let mut i: usize = a;
    while i < b
        invariant
            a <= i <= b <= s@.len(),
            out@ == s@.subrange(a as int, i as int),
        decreases b - i,
    {
        out.push(s[i]);
        proof {
            assert(s@.subrange(a as int, i as int).push(s@[i as int]) =~= s@.subrange(
                a as int,
                i + 1,
            ));
        }
        i = i + 1;
    }
    out
}

fn strip_fences(s: &Vec<char>) -> (r: Vec<char>)
    ensures
        r@ == strip_code_block(s@),
{
    let n = s.len();
    let f = first_fence(s, 0);
    proof {
        lemma_first_fence_bounds(s@, 0);
    }
    if f == n {
        return copy_range(s, 0, n);
    }
    let p = last_fence(s, n - 3);
    match p {
        Some(p) => {
            if p >= f + 3 {
                let mut out = copy_range(s, 0, f);
                let mut tail = copy_range(s, p + 3, n);
                out.append(&mut tail);
                out
            } else {
                copy_range(s, 0, n)
            }
        },
        None => copy_range(s, 0, n),
    }
}

// ---------------------------------------------------------------------------
// Trimming.
// ---------------------------------------------------------------------------
pub open spec fn rtrim_end(s: Seq<char>, j: int) -> int
    decreases j,
        when 0 <= j <= s.len()
{
    if j > 0 && is_space_char(s[j - 1]) {
        rtrim_end(s, j - 1)
    } else {
        j
    }
}

/// The text without leading and trailing whitespace.
pub open spec fn spec_trim(s: Seq<char>) -> Seq<char> {
    let a = space_run_end(s, 0);
    let b = rtrim_end(s, s.len() as int);
    if a <= b {
        s.subrange(a, b)
    } else {
        Seq::empty()
    }
}

fn rtrim_from(s: &Vec<char>, j: usize) -> (r: usize)
    requires
        j <= s@.len(),
    ensures
        r as int == rtrim_end(s@, j as int),
        r <= j,
    decreases j,
{
    if j > 0 && char_is_space(s[j - 1]) {
        rtrim_from(s, j - 1)
    } else {
        j
    }
}

fn trim_spaces(s: &Vec<char>) -> (r: Vec<char>)
    ensures
        r@ == spec_trim(s@),
{
    let a = space_run_from(s, 0);
    let b = rtrim_from(s, s.len());
    if a <= b {
        copy_range(s, a, b)
    } else {
        let out: Vec<char> = Vec::new();
        proof {
            assert(out@ =~= spec_trim(s@));
        }
        out
    }
}

// ---------------------------------------------------------------------------
// The whole normalization, and the nothing-to-translate test.
// ---------------------------------------------------------------------------
/// The normalized residual of a text: each markup token kind stripped in
/// order, the fenced block removed, the result trimmed.
pub open spec fn residual(s: Seq<char>) -> Seq<char> {
    spec_trim(
        strip_code_block(
            stripped(
                Token::Url,
                stripped(
                    Token::Timestamp,
                    stripped(Token::Emoji, stripped(Token::Mention, stripped(Token::Everyone, s))),
                ),
            ),
        ),
    )
}

/// Strip the markup from a text and trim it.
pub fn residual_of(content: &Vec<char>) -> (r: Vec<char>)
    ensures
        r@ == residual(content@),
{
    let pass1 = strip_token(content, Token::Everyone);
    let pass2 = strip_token(&pass1, Token::Mention);
    let pass3 = strip_token(&pass2, Token::Emoji);
    let pass4 = strip_token(&pass3, Token::Timestamp);
    let pass5 = strip_token(&pass4, Token::Url);
    let pass6 = strip_fences(&pass5);
    trim_spaces(&pass6)
}

/// Whether `c` counts as alphabetic, as the platform's standard library
/// decides it.
pub uninterp spec fn is_alpha_char(c: char) -> bool;

/// Relies on char::is_alphabetic: whether the character has the Unicode
/// Alphabetic property, a function of the character alone; within ASCII the
/// property holds exactly of the letters.
#[verifier::external_body]
fn char_is_alphabetic(c: char) -> (r: bool)
    ensures
        r == is_alpha_char(c),
        (c as u32) < 0x80 ==> (r <==> ((0x41 <= (c as u32) && (c as u32) <= 0x5A) || (0x61 <= (
        c as u32) && (c as u32) <= 0x7A))),
{
    c.is_alphabetic()
}

/// Whether some character of `s` is alphabetic.
pub open spec fn has_alpha(s: Seq<char>) -> bool {
    exists|i: int| 0 <= i < s.len() && is_alpha_char(s[i])
}

fn contains_alpha(s: &Vec<char>) -> (r: bool)
    ensures
        r == has_alpha(s@),
{
    let mut i: usize = 0;
    while i < s.len()
        invariant
            i <= s@.len(),
            forall|j: int| 0 <= j < i ==> !is_alpha_char(s@[j]),
        decreases s@.len() - i,
    {
        if char_is_alphabetic(s[i]) {
            proof {
                assert(has_alpha(s@)) by {
                    assert(is_alpha_char(s@[i as int]));
                }
            }
            return true;
        }
        i = i + 1;
    }
    false
}

/// A text offers nothing to translate when its normalized residual is empty
/// or has no alphabetic character.
pub open spec fn nothing_to_translate(content: Seq<char>) -> bool {
    !has_alpha(residual(content))
}

/// The outcome of normalizing a text with nothing to translate. Callers
/// treat it as a silent skip, never a user-visible error.
#[derive(Clone, Copy, PartialEq, Eq, Structural, Debug)]
pub struct NothingToTranslate;

/// A classified text, ready to be translated into its target language.
pub struct Translation {
    pub target: TargetLanguage,
}

impl Translation {
    /// Normalize `content` and classify its source language. Succeeds
    /// exactly when the residual still holds an alphabetic character; the
    /// translation then targets the other member of the language pair,
    /// judged from the residual alone.
    pub fn new(content: &Vec<char>) -> (r: Result<Translation, NothingToTranslate>)
        ensures
            r is Ok <==> has_alpha(residual(content@)),
            r matches Ok(tr) ==> tr.target.lang == other_lang(
                spec_detect_language(residual(content@)),
            ),
            r matches Ok(tr) ==> tr.target.wf(),
    {
        let res = residual_of(content);
        if !contains_alpha(&res) {
            return Err(NothingToTranslate);
        }
        let source = detect_language(&res);
        Ok(Translation { target: TargetLanguage::from_lang(source) })
    }
}

} // verus!
