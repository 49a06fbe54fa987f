//! The two-member language pair and the coarse source-language heuristic.
//!
//! Classification counts ASCII alphanumeric characters in a text: when they
//! make up more than half of the text's UTF-8 byte length the text is taken
//! to be the pair's first language, otherwise the second. The mirror always
//! targets the other member of the pair.

use vstd::prelude::*;

verus! {

/// The configured language pair.
#[derive(Clone, Copy, PartialEq, Eq, Structural, Debug)]
pub enum Lang {
    En,
    Ja,
}

/// The other member of the pair.
pub open spec fn other_lang(l: Lang) -> Lang {
    match l {
        Lang::En => Lang::Ja,
        Lang::Ja => Lang::En,
    }
}

/// The flag indicator annotated onto a mirror, as the two regional-indicator
/// characters of the target language's flag.
pub open spec fn flag_seq(l: Lang) -> Seq<char> {
    match l {
        Lang::En => seq!['\u{1F1EC}', '\u{1F1E7}'],
        Lang::Ja => seq!['\u{1F1EF}', '\u{1F1F5}'],
    }
}

/// The language a translation is directed at, with its flag indicator.
pub struct TargetLanguage {
    pub lang: Lang,
    pub flag: Vec<char>,
}

impl TargetLanguage {
    pub open spec fn wf(self) -> bool {
        &&& self.flag@ == flag_seq(self.lang)
    }

    /// The target for a text classified as `lang`: always the other member
    /// of the pair, carrying that member's flag.
    pub fn from_lang(lang: Lang) -> (t: TargetLanguage)
        ensures
            t.lang == other_lang(lang),
            t.wf(),
    {
        match lang {
            Lang::Ja => {
                let mut flag: Vec<char> = Vec::new();
                flag.push('\u{1F1EC}');
                flag.push('\u{1F1E7}');
                assert(flag@ =~= flag_seq(Lang::En));
                TargetLanguage { lang: Lang::En, flag }
            },
            Lang::En => {
                let mut flag: Vec<char> = Vec::new();
                flag.push('\u{1F1EF}');
                flag.push('\u{1F1F5}');
                assert(flag@ =~= flag_seq(Lang::Ja));
                TargetLanguage { lang: Lang::Ja, flag }
            },
        }
    }
}

/// Classification is an involution-free toggle: the target of the target is
/// the original language, and the target is never the language itself.
pub proof fn lemma_target_is_other_member(l: Lang)
    ensures
        other_lang(l) != l,
        other_lang(other_lang(l)) == l,
{
}

/// Classification is total and deterministic over the configured pair:
/// every text is judged one of its two members, and equal texts are judged
/// alike.
pub proof fn lemma_classification_total(s: Seq<char>, t: Seq<char>)
    ensures
        spec_detect_language(s) == Lang::En || spec_detect_language(s) == Lang::Ja,
        s == t ==> spec_detect_language(s) == spec_detect_language(t),
{
}

/// Number of bytes of the UTF-8 encoding of `c`.
pub open spec fn char_utf8_len(c: char) -> int {
    if (c as u32) < 0x80 {
        1
    } else if (c as u32) < 0x800 {
        2
    } else if (c as u32) < 0x10000 {
        3
    } else {
        4
    }
}

/// Number of bytes of the UTF-8 encoding of `s`.
pub open spec fn utf8_len(s: Seq<char>) -> int
    decreases s.len(),
{
    if s.len() == 0 {
        0
    } else {
        utf8_len(s.drop_last()) + char_utf8_len(s.last())
    }
}

pub open spec fn is_ascii_alnum(c: char) -> bool {
    ||| 0x30 <= (c as u32) <= 0x39
    ||| 0x41 <= (c as u32) <= 0x5A
    ||| 0x61 <= (c as u32) <= 0x7A
}

/// Number of ASCII alphanumeric characters in `s`.
pub open spec fn ascii_alnum_count(s: Seq<char>) -> int
    decreases s.len(),
{
    if s.len() == 0 {
        0
    } else {
        ascii_alnum_count(s.drop_last()) + if is_ascii_alnum(s.last()) {
            1int
        } else {
            0int
        }
    }
}

/// The classification itself: first member of the pair when ASCII
/// alphanumeric characters outnumber half the UTF-8 byte length.
pub open spec fn spec_detect_language(s: Seq<char>) -> Lang {
    if ascii_alnum_count(s) > utf8_len(s) / 2 {
        Lang::En
    } else {
        Lang::Ja
    }
}

proof fn lemma_counts_nonneg(s: Seq<char>)
    ensures
        0 <= ascii_alnum_count(s) <= s.len(),
        0 <= utf8_len(s) <= 4 * s.len(),
    decreases s.len(),
{
    if s.len() > 0 {
        lemma_counts_nonneg(s.drop_last());
    }
}

fn char_is_ascii_alnum(c: char) -> (r: bool)
    ensures
        r == is_ascii_alnum(c),
{
    let u = c as u32;
    (0x30 <= u && u <= 0x39) || (0x41 <= u && u <= 0x5A) || (0x61 <= u && u <= 0x7A)
}

/// Classify the source language of `text`.
pub fn detect_language(text: &Vec<char>) -> (l: Lang)
    ensures
        l == spec_detect_language(text@),
{
    let mut alnum: u128 = 0;
    let mut bytes: u128 = 0;
    let mut i: usize = 0;
    proof {
        lemma_counts_nonneg(text@);
    }
    while i < text.len()
        invariant
            i <= text@.len(),
            alnum == ascii_alnum_count(text@.take(i as int)),
            bytes == utf8_len(text@.take(i as int)),
            alnum <= i,
            bytes <= 4 * i,
        decreases text@.len() - i,
    {
        let c = text[i];
        proof {
            assert(text@.take(i + 1).drop_last() =~= text@.take(i as int));
            assert(text@.take(i + 1).last() == text@[i as int]);
        }
        if char_is_ascii_alnum(c) {
            alnum = alnum + 1;
        }
        let u = c as u32;
        if u < 0x80 {
            bytes = bytes + 1;
        } else if u < 0x800 {
            bytes = bytes + 2;
        } else if u < 0x10000 {
            bytes = bytes + 3;
        } else {
            bytes = bytes + 4;
        }
        i = i + 1;
    }
    proof {
        assert(text@.take(text@.len() as int) =~= text@);
    }
    if alnum > bytes / 2 {
        Lang::En
    } else {
        Lang::Ja
    }
}

} // verus!
