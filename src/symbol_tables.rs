//! Character normalisation and the cells of function names and symbols.

use vstd::prelude::*;

use crate::chars::text_is;
use crate::constants::PLACEHOLDER;
use crate::math_element::SubscriptType;
use crate::pattern::{is_dot_number, BraillePattern};
use crate::strings::{cells1, cells2, cells3, cells4, cells_of_dots, BrailleString};

verus! {

/// Whether `c` is an invisible operator (function application, invisible
/// times, separator or plus), which has no cell.
pub open spec fn is_invisible_operator(c: char) -> bool {
    0x2061 <= (c as u32) <= 0x2064
}

/// The canonical form of a character that has duplicates or legacy forms;
/// any other character stands for itself.
pub open spec fn canonical_char(c: char) -> char {
    if c == '\u{3f5}' {
        '\u{3b5}'
    } else if c == '\u{1d6dc}' {
        '\u{1d6c6}'
    } else if c == '\u{3f4}' {
        '\u{398}'
    } else if c == '\u{1d6b9}' {
        '\u{1d6af}'
    } else if c == '\u{3d1}' {
        '\u{3b8}'
    } else if c == '\u{1d6dd}' {
        '\u{1d6c9}'
    } else if c == '\u{2212}' {
        '-'
    } else if c == '\u{2a7e}' {
        '\u{2265}'
    } else if c == '\u{2a7d}' {
        '\u{2264}'
    } else if c == '\u{210e}' {
        '\u{1d455}'
    } else if c == '\u{212c}' {
        '\u{1d49d}'
    } else if c == '\u{2130}' {
        '\u{1d4a0}'
    } else if c == '\u{2131}' {
        '\u{1d4a1}'
    } else if c == '\u{210b}' {
        '\u{1d4a3}'
    } else if c == '\u{2110}' {
        '\u{1d4a4}'
    } else if c == '\u{2112}' {
        '\u{1d4a7}'
    } else if c == '\u{2133}' {
        '\u{1d4a8}'
    } else if c == '\u{211b}' {
        '\u{1d4ad}'
    } else if c == '\u{212f}' {
        '\u{1d4ba}'
    } else if c == '\u{210a}' {
        '\u{1d4bc}'
    } else if c == '\u{2134}' {
        '\u{1d4c4}'
    } else if c == '\u{212d}' {
        '\u{1d506}'
    } else if c == '\u{210c}' {
        '\u{1d50b}'
    } else if c == '\u{2111}' {
        '\u{1d50c}'
    } else if c == '\u{211c}' {
        '\u{1d515}'
    } else if c == '\u{2128}' {
        '\u{1d51d}'
    } else if c == '\u{2102}' {
        '\u{1d53a}'
    } else if c == '\u{210d}' {
        '\u{1d53f}'
    } else if c == '\u{2115}' {
        '\u{1d545}'
    } else if c == '\u{2119}' {
        '\u{1d547}'
    } else if c == '\u{211a}' {
        '\u{1d548}'
    } else if c == '\u{211d}' {
        '\u{1d549}'
    } else if c == '\u{2124}' {
        '\u{1d551}'
    } else {
        c
    }
}

/// What a character of the input becomes before the tree is read.
pub open spec fn normalize_spec(c: char) -> Option<char> {
    if is_invisible_operator(c) {
        None
    } else {
        Some(canonical_char(c))
    }
}

/// Dot numbers of the cells of a symbol; the placeholder for a symbol that
/// the notation does not know.
pub open spec fn symbol_dots(c: char) -> Seq<usize> {
    if c == '+' {
        seq![235]
    } else if c == '-' {
        seq![36]
    } else if c == '\u{b1}' {
        seq![235, 36]
    } else if c == '\u{2213}' {
        seq![36, 235]
    } else if c == '\u{d7}' {
        seq![236]
    } else if c == '\u{22c5}' {
        seq![3]
    } else if c == '=' {
        seq![0, 2356]
    } else if c == '>' {
        seq![0, 135, 0]
    } else if c == '<' {
        seq![0, 246, 0]
    } else if c == '\u{2265}' {
        seq![0, 135, 2356]
    } else if c == '\u{2264}' {
        seq![0, 246, 2356]
    } else if c == ',' {
        seq![6, 2]
    } else if c == '\u{2026}' {
        seq![6, 3]
    } else if c == ':' {
        seq![6, 25, 0]
    } else if c == '!' {
        seq![6, 235]
    } else if c == '\u{2211}' {
        seq![456, 234]
    } else if c == '\u{220f}' {
        seq![456, 1234]
    } else if c == '\u{222b}' {
        seq![2346]
    } else if c == '\u{222c}' {
        seq![2346, 2346]
    } else if c == '\u{222d}' {
        seq![2346, 2346, 2346]
    } else if c == '\u{2202}' {
        seq![1456]
    } else if c == '\u{2032}' {
        seq![35]
    } else if c == '\u{2208}' {
        seq![0, 5, 246, 0]
    } else if c == '\u{2209}' {
        seq![0, 45, 246, 0]
    } else if c == '\u{2282}' {
        seq![0, 12346, 0]
    } else if c == '\u{2205}' {
        seq![4, 356]
    } else if c == '\u{222a}' {
        seq![0, 56, 356]
    } else if c == '\u{2229}' {
        seq![0, 56, 256]
    } else if c == '\u{2216}' {
        seq![56, 256]
    } else if c == '\u{2227}' {
        seq![0, 56, 236]
    } else if c == '\u{2228}' {
        seq![0, 56, 35]
    } else if c == '\u{ac}' {
        seq![26]
    } else if c == '\u{2200}' {
        seq![1246, 3]
    } else if c == '\u{2203}' {
        seq![1246, 26]
    } else if c == '\u{2192}' {
        seq![0, 25, 135]
    } else if c == '\u{2190}' {
        seq![0, 246, 25]
    } else if c == '\u{203e}' {
        seq![25]
    } else if c == '^' {
        seq![256]
    } else if c == '~' {
        seq![26]
    } else if c == '\u{2217}' {
        seq![23]
    } else if c == '\u{2d9}' {
        seq![2]
    } else if c == '(' {
        seq![126]
    } else if c == ')' {
        seq![345]
    } else if c == '|' {
        seq![456]
    } else if c == '[' {
        seq![12356]
    } else if c == ']' {
        seq![23456]
    } else {
        seq![PLACEHOLDER]
    }
}

/// The cells of a symbol.
pub open spec fn symbol_cells(c: char) -> Seq<BraillePattern> {
    cells_of_dots(symbol_dots(c))
}

/// Dot numbers of the function names that have cells of their own.
pub open spec fn special_function_dots(f: Seq<char>) -> Option<Seq<usize>> {
    if f == seq!['s', 'i', 'n'] {
        Some(seq![1246, 234])
    } else if f == seq!['c', 'o', 's'] {
        Some(seq![1246, 13])
    } else if f == seq!['t', 'a', 'n'] {
        Some(seq![1246, 2345])
    } else if f == seq!['c', 'o', 't'] || f == seq!['c', 't', 'g'] {
        Some(seq![1246, 13, 2345])
    } else if f == seq!['l', 'o', 'g'] {
        Some(seq![1246, 123])
    } else if f == seq!['l', 'n'] {
        Some(seq![1246, 123, 1345])
    } else if f == seq!['l', 'g'] {
        Some(seq![1246, 123, 1245])
    } else if f == seq!['l', 'i', 'm'] {
        Some(seq![1246, 123, 134])
    } else {
        None
    }
}

/// Whether an embellishment may follow its base with no marker: a prime,
/// plus, minus or asterisk as a superscript, a tilde, dot or caret above.
pub open spec fn affinity_spec(c: char, script: SubscriptType) -> bool {
    ((c == '\u{2032}' || c == '+' || c == '-' || c == '\u{2217}') && script == SubscriptType::Sup)
        || ((c == '~' || c == '\u{2d9}' || c == '^') && script == SubscriptType::Over)
}

/// Drops invisible operators and replaces duplicate and legacy code points
/// by their canonical form.
pub fn normalize(c: char) -> (r: Option<char>)
    ensures
        r == normalize_spec(c),
{
    if 0x2061 <= c as u32 && c as u32 <= 0x2064 {
        None
    } else {
        Some(canonical(c))
    }
}

fn canonical(c: char) -> (r: char)
    ensures
        r == canonical_char(c),
{
    if c == '\u{3f5}' {
        '\u{3b5}'
    } else if c == '\u{1d6dc}' {
        '\u{1d6c6}'
    } else if c == '\u{3f4}' {
        '\u{398}'
    } else if c == '\u{1d6b9}' {
        '\u{1d6af}'
    } else if c == '\u{3d1}' {
        '\u{3b8}'
    } else if c == '\u{1d6dd}' {
        '\u{1d6c9}'
    } else if c == '\u{2212}' {
        '-'
    } else if c == '\u{2a7e}' {
        '\u{2265}'
    } else if c == '\u{2a7d}' {
        '\u{2264}'
    } else if c == '\u{210e}' {
        '\u{1d455}'
    } else if c == '\u{212c}' {
        '\u{1d49d}'
    } else if c == '\u{2130}' {
        '\u{1d4a0}'
    } else if c == '\u{2131}' {
        '\u{1d4a1}'
    } else if c == '\u{210b}' {
        '\u{1d4a3}'
    } else if c == '\u{2110}' {
        '\u{1d4a4}'
    } else if c == '\u{2112}' {
        '\u{1d4a7}'
    } else if c == '\u{2133}' {
        '\u{1d4a8}'
    } else if c == '\u{211b}' {
        '\u{1d4ad}'
    } else if c == '\u{212f}' {
        '\u{1d4ba}'
    } else if c == '\u{210a}' {
        '\u{1d4bc}'
    } else if c == '\u{2134}' {
        '\u{1d4c4}'
    } else if c == '\u{212d}' {
        '\u{1d506}'
    } else if c == '\u{210c}' {
        '\u{1d50b}'
    } else if c == '\u{2111}' {
        '\u{1d50c}'
    } else if c == '\u{211c}' {
        '\u{1d515}'
    } else if c == '\u{2128}' {
        '\u{1d51d}'
    } else if c == '\u{2102}' {
        '\u{1d53a}'
    } else if c == '\u{210d}' {
        '\u{1d53f}'
    } else if c == '\u{2115}' {
        '\u{1d545}'
    } else if c == '\u{2119}' {
        '\u{1d547}'
    } else if c == '\u{211a}' {
        '\u{1d548}'
    } else if c == '\u{211d}' {
        '\u{1d549}'
    } else if c == '\u{2124}' {
        '\u{1d551}'
    } else {
        c
    }
}

/// The cells of a function name that the notation abbreviates.
pub fn special_function(f: &str) -> (r: Option<BrailleString>)
    ensures
        match special_function_dots(f@) {
            Some(d) => r matches Some(s) && s@ == cells_of_dots(d),
            None => r is None,
        },
{
    proof {
        reveal_strlit("sin");
        assert("sin"@ =~= seq!['s', 'i', 'n']);
        reveal_strlit("cos");
        assert("cos"@ =~= seq!['c', 'o', 's']);
        reveal_strlit("tan");
        assert("tan"@ =~= seq!['t', 'a', 'n']);
        reveal_strlit("cot");
        assert("cot"@ =~= seq!['c', 'o', 't']);
        reveal_strlit("ctg");
        assert("ctg"@ =~= seq!['c', 't', 'g']);
        reveal_strlit("log");
        assert("log"@ =~= seq!['l', 'o', 'g']);
        reveal_strlit("ln");
        assert("ln"@ =~= seq!['l', 'n']);
        reveal_strlit("lg");
        assert("lg"@ =~= seq!['l', 'g']);
        reveal_strlit("lim");
        assert("lim"@ =~= seq!['l', 'i', 'm']);
    }
    if text_is(f, "sin") {
        Some(cells2(1246, 234))
    } else if text_is(f, "cos") {
        Some(cells2(1246, 13))
    } else if text_is(f, "tan") {
        Some(cells2(1246, 2345))
    } else if text_is(f, "cot") || text_is(f, "ctg") {
        Some(cells3(1246, 13, 2345))
    } else if text_is(f, "log") {
        Some(cells2(1246, 123))
    } else if text_is(f, "ln") {
        Some(cells3(1246, 123, 1345))
    } else if text_is(f, "lg") {
        Some(cells3(1246, 123, 1245))
    } else if text_is(f, "lim") {
        Some(cells3(1246, 123, 134))
    } else {
        None
    }
}

/// Whether the embellishment `c` attaches to its base with no marker.
pub fn has_affinity(c: char, script: SubscriptType) -> (r: bool)
    ensures
        r == affinity_spec(c, script),
{
    match script {
        SubscriptType::Sup => c == '\u{2032}' || c == '+' || c == '-' || c == '\u{2217}',
        SubscriptType::Over => c == '~' || c == '\u{2d9}' || c == '^',
        _ => false,
    }
}

#[verifier::rlimit(100)]
/// The cells of an operator, relation, set, logic, bracket, punctuation or
/// calculus symbol; the placeholder cell for any other character.
pub fn braille_symbol(c: char) -> (r: BrailleString)
    ensures
        r@ == symbol_cells(c),
{
    if c == '+' {
        cells1(235)
    } else if c == '-' {
        cells1(36)
    } else if c == '\u{b1}' {
        cells2(235, 36)
    } else if c == '\u{2213}' {
        cells2(36, 235)
    } else if c == '\u{d7}' {
        cells1(236)
    } else if c == '\u{22c5}' {
        cells1(3)
    } else if c == '=' {
        cells2(0, 2356)
    } else if c == '>' {
        cells3(0, 135, 0)
    } else if c == '<' {
        cells3(0, 246, 0)
    } else if c == '\u{2265}' {
        cells3(0, 135, 2356)
    } else if c == '\u{2264}' {
        cells3(0, 246, 2356)
    } else if c == ',' {
        cells2(6, 2)
    } else if c == '\u{2026}' {
        cells2(6, 3)
    } else if c == ':' {
        cells3(6, 25, 0)
    } else if c == '!' {
        cells2(6, 235)
    } else if c == '\u{2211}' {
        cells2(456, 234)
    } else if c == '\u{220f}' {
        cells2(456, 1234)
    } else if c == '\u{222b}' {
        cells1(2346)
    } else if c == '\u{222c}' {
        cells2(2346, 2346)
    } else if c == '\u{222d}' {
        cells3(2346, 2346, 2346)
    } else if c == '\u{2202}' {
        cells1(1456)
    } else if c == '\u{2032}' {
        cells1(35)
    } else if c == '\u{2208}' {
        cells4(0, 5, 246, 0)
    } else if c == '\u{2209}' {
        cells4(0, 45, 246, 0)
    } else if c == '\u{2282}' {
        cells3(0, 12346, 0)
    } else if c == '\u{2205}' {
        cells2(4, 356)
    } else if c == '\u{222a}' {
        cells3(0, 56, 356)
    } else if c == '\u{2229}' {
        cells3(0, 56, 256)
    } else if c == '\u{2216}' {
        cells2(56, 256)
    } else if c == '\u{2227}' {
        cells3(0, 56, 236)
    } else if c == '\u{2228}' {
        cells3(0, 56, 35)
    } else if c == '\u{ac}' {
        cells1(26)
    } else if c == '\u{2200}' {
        cells2(1246, 3)
    } else if c == '\u{2203}' {
        cells2(1246, 26)
    } else if c == '\u{2192}' {
        cells3(0, 25, 135)
    } else if c == '\u{2190}' {
        cells3(0, 246, 25)
    } else if c == '\u{203e}' {
        cells1(25)
    } else if c == '^' {
        cells1(256)
    } else if c == '~' {
        cells1(26)
    } else if c == '\u{2217}' {
        cells1(23)
    } else if c == '\u{2d9}' {
        cells1(2)
    } else if c == '(' {
        cells1(126)
    } else if c == ')' {
        cells1(345)
    } else if c == '|' {
        cells1(456)
    } else if c == '[' {
        cells1(12356)
    } else if c == ']' {
        cells1(23456)
    } else {
        cells1(PLACEHOLDER)
    }
}

/// Normalising drops every invisible operator, and normalising a
/// normalised character changes nothing.
pub proof fn lemma_normalize_laws(c: char)
    ensures
        is_invisible_operator(c) ==> normalize_spec(c) is None,
        normalize_spec(c) matches Some(d) ==> normalize_spec(d) == Some(d),
{
}

} // verus!
