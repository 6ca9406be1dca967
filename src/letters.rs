//! Mathematical letters: script, font and case, and their cells.

use vstd::prelude::*;

use crate::constants::{
    BOLD_CALLIGRAPHIC_PREFIX, BOLD_PREFIX, CALLIGRAPHIC_PREFIX, CAPITAL_FRAKTUR_PREFIX,
    CAPITAL_GREEK_PREFIX, CAPITAL_LATIN_PREFIX, DOUBLESTRUCK_PREFIX, SMALL_FRAKTUR_PREFIX,
    SMALL_GREEK_PREFIX, SMALL_LATIN_PREFIX,
};
use crate::pattern::{is_dot_number, BraillePattern};
use crate::strings::BrailleString;

verus! {

#[derive(Clone, Copy, Debug, PartialEq, Eq, Structural)]
pub enum Script {
    Latin,
    Greek,
}

#[derive(Clone, Copy, Debug, PartialEq, Eq, Structural)]
pub enum Font {
    Normal,
    Bold,
    Fraktur,
    Calligraphic,
    BoldCalligraphic,
    Doublestruck,
}

/// The typographic identity of a letter.
#[derive(Clone, Copy, Debug, PartialEq, Eq, Structural)]
pub struct Classifier {
    pub script: Script,
    pub font: Font,
    pub capital: bool,
}

/// A letter: its position in its alphabet, and its classifier.
#[derive(Clone, Copy, Debug, PartialEq, Eq, Structural)]
pub struct Letter(pub usize, pub Classifier);

/// A block of consecutive code points that holds one alphabet in one
/// script, font and case.
#[derive(Clone, Copy)]
pub struct LetterRange {
    pub start: u32,
    pub end: u32,
    pub classifier: Classifier,
}

/// Number of letter ranges.
pub const LETTER_RANGES: usize = 16;

/// The letter ranges: Latin in six fonts and Greek in two, each in both
/// cases. They are pairwise disjoint.
pub open spec fn letter_range(k: int) -> LetterRange {
    if k == 0 {
        LetterRange { start: 0x61, end: 0x7a, classifier: Classifier { script: Script::Latin, font: Font::Normal, capital: false } }
    } else if k == 1 {
        LetterRange { start: 0x1d41a, end: 0x1d433, classifier: Classifier { script: Script::Latin, font: Font::Bold, capital: false } }
    } else if k == 2 {
        LetterRange { start: 0x1d4b6, end: 0x1d4cf, classifier: Classifier { script: Script::Latin, font: Font::Calligraphic, capital: false } }
    } else if k == 3 {
        LetterRange { start: 0x1d4ea, end: 0x1d503, classifier: Classifier { script: Script::Latin, font: Font::BoldCalligraphic, capital: false } }
    } else if k == 4 {
        LetterRange { start: 0x1d552, end: 0x1d56b, classifier: Classifier { script: Script::Latin, font: Font::Doublestruck, capital: false } }
    } else if k == 5 {
        LetterRange { start: 0x1d51e, end: 0x1d537, classifier: Classifier { script: Script::Latin, font: Font::Fraktur, capital: false } }
    } else if k == 6 {
        LetterRange { start: 0x41, end: 0x5a, classifier: Classifier { script: Script::Latin, font: Font::Normal, capital: true } }
    } else if k == 7 {
        LetterRange { start: 0x1d400, end: 0x1d419, classifier: Classifier { script: Script::Latin, font: Font::Bold, capital: true } }
    } else if k == 8 {
        LetterRange { start: 0x1d49c, end: 0x1d4b5, classifier: Classifier { script: Script::Latin, font: Font::Calligraphic, capital: true } }
    } else if k == 9 {
        LetterRange { start: 0x1d4d0, end: 0x1d4e9, classifier: Classifier { script: Script::Latin, font: Font::BoldCalligraphic, capital: true } }
    } else if k == 10 {
        LetterRange { start: 0x1d538, end: 0x1d551, classifier: Classifier { script: Script::Latin, font: Font::Doublestruck, capital: true } }
    } else if k == 11 {
        LetterRange { start: 0x1d504, end: 0x1d51d, classifier: Classifier { script: Script::Latin, font: Font::Fraktur, capital: true } }
    } else if k == 12 {
        LetterRange { start: 0x3b1, end: 0x3c9, classifier: Classifier { script: Script::Greek, font: Font::Normal, capital: false } }
    } else if k == 13 {
        LetterRange { start: 0x1d6c2, end: 0x1d6da, classifier: Classifier { script: Script::Greek, font: Font::Bold, capital: false } }
    } else if k == 14 {
        LetterRange { start: 0x391, end: 0x3a9, classifier: Classifier { script: Script::Greek, font: Font::Normal, capital: true } }
    } else {
        LetterRange { start: 0x1d6a8, end: 0x1d6c0, classifier: Classifier { script: Script::Greek, font: Font::Bold, capital: true } }
    }
}

/// Whether the code point lies in letter range `k`.
pub open spec fn in_letter_range(c: char, k: int) -> bool {
    0 <= k < LETTER_RANGES && letter_range(k).start <= (c as u32) <= letter_range(k).end
}

/// The number of letters of a script's alphabet.
pub open spec fn alphabet_len(s: Script) -> int {
    match s {
        Script::Latin => 26,
        Script::Greek => 25,
    }
}

/// Dot number of letter `i` of the Latin alphabet.
pub open spec fn latin_dots(i: int) -> int {
    if i == 0 {
        1
    } else if i == 1 {
        12
    } else if i == 2 {
        14
    } else if i == 3 {
        145
    } else if i == 4 {
        15
    } else if i == 5 {
        124
    } else if i == 6 {
        1245
    } else if i == 7 {
        125
    } else if i == 8 {
        24
    } else if i == 9 {
        245
    } else if i == 10 {
        13
    } else if i == 11 {
        123
    } else if i == 12 {
        134
    } else if i == 13 {
        1345
    } else if i == 14 {
        135
    } else if i == 15 {
        1234
    } else if i == 16 {
        12345
    } else if i == 17 {
        1235
    } else if i == 18 {
        234
    } else if i == 19 {
        2345
    } else if i == 20 {
        136
    } else if i == 21 {
        1236
    } else if i == 22 {
        2456
    } else if i == 23 {
        1346
    } else if i == 24 {
        13456
    } else {
        1356
    }
}

/// Dot number of letter `i` of the Greek alphabet; both forms of sigma share
/// one cell.
pub open spec fn greek_dots(i: int) -> int {
    if i == 0 {
        1
    } else if i == 1 {
        12
    } else if i == 2 {
        1245
    } else if i == 3 {
        145
    } else if i == 4 {
        15
    } else if i == 5 {
        1356
    } else if i == 6 {
        245
    } else if i == 7 {
        125
    } else if i == 8 {
        24
    } else if i == 9 {
        13
    } else if i == 10 {
        123
    } else if i == 11 {
        134
    } else if i == 12 {
        1345
    } else if i == 13 {
        1346
    } else if i == 14 {
        135
    } else if i == 15 {
        1234
    } else if i == 16 {
        1235
    } else if i == 17 {
        234
    } else if i == 18 {
        234
    } else if i == 19 {
        2345
    } else if i == 20 {
        136
    } else if i == 21 {
        124
    } else if i == 22 {
        14
    } else if i == 23 {
        13456
    } else {
        2456
    }
}

/// The cell of a letter.
pub open spec fn letter_cell(l: Letter) -> BraillePattern {
    match l.1.script {
        Script::Latin => BraillePattern::cell(latin_dots(l.0 as int)),
        Script::Greek => BraillePattern::cell(greek_dots(l.0 as int)),
    }
}

/// The cells that announce a classifier: a Fraktur marker alone for Fraktur,
/// else a script-and-case marker, then a font marker for the fonts other
/// than the normal one.
pub open spec fn prefix_dots(c: Classifier) -> Seq<usize> {
    if c.font == Font::Fraktur {
        if c.capital {
            seq![CAPITAL_FRAKTUR_PREFIX]
        } else {
            seq![SMALL_FRAKTUR_PREFIX]
        }
    } else {
        let script = match c.script {
            Script::Latin => if c.capital {
                CAPITAL_LATIN_PREFIX
            } else {
                SMALL_LATIN_PREFIX
            },
            Script::Greek => if c.capital {
                CAPITAL_GREEK_PREFIX
            } else {
                SMALL_GREEK_PREFIX
            },
        };
        match c.font {
            Font::Bold => seq![script, BOLD_PREFIX],
            Font::Calligraphic => seq![script, CALLIGRAPHIC_PREFIX],
            Font::BoldCalligraphic => seq![script, BOLD_CALLIGRAPHIC_PREFIX],
            Font::Doublestruck => seq![script, DOUBLESTRUCK_PREFIX],
            _ => seq![script],
        }
    }
}

pub open spec fn prefix_cells(c: Classifier) -> Seq<BraillePattern> {
    prefix_dots(c).map_values(|d: usize| BraillePattern::cell(d as int))
}

/// The letter that `c` is, if it lies in one of the letter ranges.
pub open spec fn classify_spec(c: char) -> Option<Letter> {
    if exists|k: int| in_letter_range(c, k) {
        let k = choose|k: int| in_letter_range(c, k);
        Some(Letter((c as u32 - letter_range(k).start) as usize, letter_range(k).classifier))
    } else {
        None
    }
}

/// A code point lies in at most one letter range, and each range holds
/// exactly one alphabet.
pub proof fn lemma_letter_ranges(c: char, j: int, k: int)
    ensures
        in_letter_range(c, j) && in_letter_range(c, k) ==> j == k,
        0 <= k < LETTER_RANGES ==> letter_range(k).end - letter_range(k).start + 1 == alphabet_len(
            letter_range(k).classifier.script,
        ),
{
}

impl Classifier {
    /// The cells that announce this classifier before a letter.
    pub fn get_prefix(&self) -> (r: BrailleString)
        ensures
            r@ == prefix_cells(*self),
    {
        if self.font == Font::Fraktur {
            if self.capital {
                let r = BrailleString::from_pattern(BraillePattern::from_dots(CAPITAL_FRAKTUR_PREFIX));
                assert(r@ =~= prefix_cells(*self));
                r
            } else {
                let r = BrailleString::from_pattern(BraillePattern::from_dots(SMALL_FRAKTUR_PREFIX));
                assert(r@ =~= prefix_cells(*self));
                r
            }
        } else {
            let script = match self.script {
                Script::Latin => if self.capital {
                    CAPITAL_LATIN_PREFIX
                } else {
                    SMALL_LATIN_PREFIX
                },
                Script::Greek => if self.capital {
                    CAPITAL_GREEK_PREFIX
                } else {
                    SMALL_GREEK_PREFIX
                },
            };
            let mut res = BrailleString::from_pattern(BraillePattern::from_dots(script));
            let font_prefix: Option<usize> = match self.font {
                Font::Bold => Some(BOLD_PREFIX),
                Font::Calligraphic => Some(CALLIGRAPHIC_PREFIX),
                Font::BoldCalligraphic => Some(BOLD_CALLIGRAPHIC_PREFIX),
                Font::Doublestruck => Some(DOUBLESTRUCK_PREFIX),
                _ => None,
            };
            if let Some(f) = font_prefix {
                res.push(BraillePattern::from_dots(f));
            }
            assert(res@ =~= prefix_cells(*self));
            res
        }
    }

    /// The letter that `c` is: the classifier of the range that holds it and
    /// its offset in that range; `None` outside every letter range.
    pub fn classify(c: char) -> (r: Option<Letter>)
        ensures
            r == classify_spec(c),
            forall|k: int|
                #![trigger in_letter_range(c, k)]
                in_letter_range(c, k) ==> r == Some(
                    Letter((c as u32 - letter_range(k).start) as usize, letter_range(k).classifier),
                ),
            r is None <==> forall|k: int| !in_letter_range(c, k),
            r matches Some(l) ==> l.0 < alphabet_len(l.1.script),
    {
        let mut k: usize = 0;
        while k < LETTER_RANGES
            invariant
                k <= LETTER_RANGES,
                forall|j: int| 0 <= j < k ==> !in_letter_range(c, j),
            decreases LETTER_RANGES - k,
        {
            let range = exec_letter_range(k);
            let cls = range.classifier;
            if let Some((found, start)) = try_range(
                c,
                range.start,
                range.end,
                cls.script,
                cls.font,
                cls.capital,
            ) {
                let l = Letter((c as u32 - start) as usize, found);
                proof {
                    assert(in_letter_range(c, k as int));
                    assert forall|j: int| in_letter_range(c, j) implies j == k by {
                        lemma_letter_ranges(c, j, k as int);
                    }
                    lemma_letter_ranges(c, k as int, k as int);
                }
                return Some(l);
            }
            k = k + 1;
        }
        assert forall|j: int| !in_letter_range(c, j) by {
            if 0 <= j < LETTER_RANGES {
                assert(!in_letter_range(c, j));
            }
        }
        None
    }
}

impl Letter {
    /// The cell of this letter in its script's alphabet.
    pub fn get_rendering(&self) -> (r: BraillePattern)
        requires
            self.0 < alphabet_len(self.1.script),
        ensures
            r == letter_cell(*self),
    {
        match self.1.script {
            Script::Latin => BraillePattern::from_dots(exec_latin_dots(self.0)),
            Script::Greek => BraillePattern::from_dots(exec_greek_dots(self.0)),
        }
    }
}

fn exec_letter_range(k: usize) -> (r: LetterRange)
    requires
        k < LETTER_RANGES,
    ensures
        r == letter_range(k as int),
{
    if k == 0 {
        LetterRange { start: 0x61, end: 0x7a, classifier: Classifier { script: Script::Latin, font: Font::Normal, capital: false } }
    } else if k == 1 {
        LetterRange { start: 0x1d41a, end: 0x1d433, classifier: Classifier { script: Script::Latin, font: Font::Bold, capital: false } }
    } else if k == 2 {
        LetterRange { start: 0x1d4b6, end: 0x1d4cf, classifier: Classifier { script: Script::Latin, font: Font::Calligraphic, capital: false } }
    } else if k == 3 {
        LetterRange { start: 0x1d4ea, end: 0x1d503, classifier: Classifier { script: Script::Latin, font: Font::BoldCalligraphic, capital: false } }
    } else if k == 4 {
        LetterRange { start: 0x1d552, end: 0x1d56b, classifier: Classifier { script: Script::Latin, font: Font::Doublestruck, capital: false } }
    } else if k == 5 {
        LetterRange { start: 0x1d51e, end: 0x1d537, classifier: Classifier { script: Script::Latin, font: Font::Fraktur, capital: false } }
    } else if k == 6 {
        LetterRange { start: 0x41, end: 0x5a, classifier: Classifier { script: Script::Latin, font: Font::Normal, capital: true } }
    } else if k == 7 {
        LetterRange { start: 0x1d400, end: 0x1d419, classifier: Classifier { script: Script::Latin, font: Font::Bold, capital: true } }
    } else if k == 8 {
        LetterRange { start: 0x1d49c, end: 0x1d4b5, classifier: Classifier { script: Script::Latin, font: Font::Calligraphic, capital: true } }
    } else if k == 9 {
        LetterRange { start: 0x1d4d0, end: 0x1d4e9, classifier: Classifier { script: Script::Latin, font: Font::BoldCalligraphic, capital: true } }
    } else if k == 10 {
        LetterRange { start: 0x1d538, end: 0x1d551, classifier: Classifier { script: Script::Latin, font: Font::Doublestruck, capital: true } }
    } else if k == 11 {
        LetterRange { start: 0x1d504, end: 0x1d51d, classifier: Classifier { script: Script::Latin, font: Font::Fraktur, capital: true } }
    } else if k == 12 {
        LetterRange { start: 0x3b1, end: 0x3c9, classifier: Classifier { script: Script::Greek, font: Font::Normal, capital: false } }
    } else if k == 13 {
        LetterRange { start: 0x1d6c2, end: 0x1d6da, classifier: Classifier { script: Script::Greek, font: Font::Bold, capital: false } }
    } else if k == 14 {
        LetterRange { start: 0x391, end: 0x3a9, classifier: Classifier { script: Script::Greek, font: Font::Normal, capital: true } }
    } else {
        LetterRange { start: 0x1d6a8, end: 0x1d6c0, classifier: Classifier { script: Script::Greek, font: Font::Bold, capital: true } }
    }
}

fn exec_latin_dots(i: usize) -> (r: usize)
    requires
        i < 26,
    ensures
        r as int == latin_dots(i as int),
        is_dot_number(r as int),
{
    if i == 0 {
        1
    } else if i == 1 {
        12
    } else if i == 2 {
        14
    } else if i == 3 {
        145
    } else if i == 4 {
        15
    } else if i == 5 {
        124
    } else if i == 6 {
        1245
    } else if i == 7 {
        125
    } else if i == 8 {
        24
    } else if i == 9 {
        245
    } else if i == 10 {
        13
    } else if i == 11 {
        123
    } else if i == 12 {
        134
    } else if i == 13 {
        1345
    } else if i == 14 {
        135
    } else if i == 15 {
        1234
    } else if i == 16 {
        12345
    } else if i == 17 {
        1235
    } else if i == 18 {
        234
    } else if i == 19 {
        2345
    } else if i == 20 {
        136
    } else if i == 21 {
        1236
    } else if i == 22 {
        2456
    } else if i == 23 {
        1346
    } else if i == 24 {
        13456
    } else {
        1356
    }
}

fn exec_greek_dots(i: usize) -> (r: usize)
    requires
        i < 25,
    ensures
        r as int == greek_dots(i as int),
        is_dot_number(r as int),
{
    if i == 0 {
        1
    } else if i == 1 {
        12
    } else if i == 2 {
        1245
    } else if i == 3 {
        145
    } else if i == 4 {
        15
    } else if i == 5 {
        1356
    } else if i == 6 {
        245
    } else if i == 7 {
        125
    } else if i == 8 {
        24
    } else if i == 9 {
        13
    } else if i == 10 {
        123
    } else if i == 11 {
        134
    } else if i == 12 {
        1345
    } else if i == 13 {
        1346
    } else if i == 14 {
        135
    } else if i == 15 {
        1234
    } else if i == 16 {
        1235
    } else if i == 17 {
        234
    } else if i == 18 {
        234
    } else if i == 19 {
        2345
    } else if i == 20 {
        136
    } else if i == 21 {
        124
    } else if i == 22 {
        14
    } else if i == 23 {
        13456
    } else {
        2456
    }
}

/// The classifier of `c` and the first code point of its range, when `c`
/// lies in the range from `start` to `end`.
fn try_range(c: char, start: u32, end: u32, script: Script, font: Font, capital: bool) -> (r:
    Option<(Classifier, u32)>)
    ensures
        r == (if start <= (c as u32) <= end {
            Some((Classifier { script, font, capital }, start))
        } else {
            None
        }),
{
    if start <= c as u32 && c as u32 <= end {
        Some((Classifier { script, font, capital }, start))
    } else {
        None
    }
}

} // verus!
