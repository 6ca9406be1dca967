//! Ordered sequences of Braille cells.

use smallvec::SmallVec;
use vstd::prelude::*;

use crate::chars::push_char;
use crate::pattern::{is_dot_number, BraillePattern};

verus! {

/// An ordered, append-only sequence of cells in reading order.
///
/// The cells live in a small vector of the `smallvec` crate, reached only
/// through the functions below, whose contracts state what that crate does.
#[verifier::external_body]
pub struct BrailleString {
    cells: SmallVec<[BraillePattern; 16]>,
}

/// The cells that a string holds, in order.
pub uninterp spec fn braille_cells(s: BrailleString) -> Seq<BraillePattern>;

impl View for BrailleString {
    type V = Seq<BraillePattern>;

    open spec fn view(&self) -> Seq<BraillePattern> {
        braille_cells(*self)
    }
}

/// Relies on `SmallVec::new`: an empty vector.
#[verifier::external_body]
fn small_new() -> (r: BrailleString)
    ensures
        braille_cells(r) == Seq::<BraillePattern>::empty(),
{
    BrailleString { cells: SmallVec::new() }
}

/// Relies on `SmallVec::push`: appends one item at the end.
#[verifier::external_body]
fn small_push(s: &mut BrailleString, c: BraillePattern)
    ensures
        braille_cells(*final(s)) == braille_cells(*old(s)).push(c),
{
    s.cells.push(c)
}

/// Relies on `SmallVec::extend_from_slice`: appends the items of the slice,
/// in order.
#[verifier::external_body]
fn small_extend(s: &mut BrailleString, other: &BrailleString)
    ensures
        braille_cells(*final(s)) == braille_cells(*old(s)) + braille_cells(*other),
{
    s.cells.extend_from_slice(&other.cells)
}

/// Relies on `SmallVec::len`: the number of items.
#[verifier::external_body]
fn small_len(s: &BrailleString) -> (r: usize)
    ensures
        r == braille_cells(*s).len(),
{
    s.cells.len()
}

/// Relies on indexing a `SmallVec`: the item at position `i`.
#[verifier::external_body]
fn small_get(s: &BrailleString, i: usize) -> (r: BraillePattern)
    requires
        i < s@.len(),
    ensures
        r == braille_cells(*s)[i as int],
{
    s.cells[i]
}

/// The cells that a list of dot numbers names, in order.
pub open spec fn cells_of_dots(dots: Seq<usize>) -> Seq<BraillePattern> {
    dots.map_values(|d: usize| BraillePattern::cell(d as int))
}

/// The characters that display a sequence of cells.
pub open spec fn display_text(cells: Seq<BraillePattern>) -> Seq<char> {
    cells.map_values(|c: BraillePattern| c.codepoint() as char)
}

/// The cell of one dot number.
pub(crate) fn cells1(a: usize) -> (r: BrailleString)
    requires
        is_dot_number(a as int),
    ensures
        r@ == cells_of_dots(seq![a]),
{
    let r = BrailleString::from_pattern(BraillePattern::from_dots(a));
    assert(r@ =~= cells_of_dots(seq![a]));
    r
}

/// The cells of two dot numbers, in order.
pub(crate) fn cells2(a: usize, b: usize) -> (r: BrailleString)
    requires
        is_dot_number(a as int),
        is_dot_number(b as int),
    ensures
        r@ == cells_of_dots(seq![a, b]),
{
    let mut r = BrailleString::from_pattern(BraillePattern::from_dots(a));
    r.push(BraillePattern::from_dots(b));
    assert(r@ =~= cells_of_dots(seq![a, b]));
    r
}

/// The cells of three dot numbers, in order.
pub(crate) fn cells3(a: usize, b: usize, c: usize) -> (r: BrailleString)
    requires
        is_dot_number(a as int),
        is_dot_number(b as int),
        is_dot_number(c as int),
    ensures
        r@ == cells_of_dots(seq![a, b, c]),
{
    let mut r = BrailleString::from_pattern(BraillePattern::from_dots(a));
    r.push(BraillePattern::from_dots(b));
    r.push(BraillePattern::from_dots(c));
    assert(r@ =~= cells_of_dots(seq![a, b, c]));
    r
}

/// The cells of four dot numbers, in order.
pub(crate) fn cells4(a: usize, b: usize, c: usize, d: usize) -> (r: BrailleString)
    requires
        is_dot_number(a as int),
        is_dot_number(b as int),
        is_dot_number(c as int),
        is_dot_number(d as int),
    ensures
        r@ == cells_of_dots(seq![a, b, c, d]),
{
    let mut r = BrailleString::from_pattern(BraillePattern::from_dots(a));
    r.push(BraillePattern::from_dots(b));
    r.push(BraillePattern::from_dots(c));
    r.push(BraillePattern::from_dots(d));
    assert(r@ =~= cells_of_dots(seq![a, b, c, d]));
    r
}

impl BrailleString {
    /// An empty sequence.
    pub fn new() -> (r: BrailleString)
        ensures
            r@ == Seq::<BraillePattern>::empty(),
    {
        small_new()
    }

    /// Appends one cell.
    pub fn push(&mut self, chr: BraillePattern)
        ensures
            final(self)@ == old(self)@.push(chr),
    {
        small_push(self, chr)
    }

    /// Appends the cells of another sequence, in order.
    pub fn push_str(&mut self, str: &BrailleString)
        ensures
            final(self)@ == old(self)@ + str@,
    {
        small_extend(self, str)
    }

    /// The number of cells.
    pub fn len(&self) -> (r: usize)
        ensures
            r == self@.len(),
    {
        small_len(self)
    }

    /// The cell at position `i`.
    pub fn get(&self, i: usize) -> (r: BraillePattern)
        requires
            i < self@.len(),
        ensures
            r == self@[i as int],
    {
        small_get(self, i)
    }

    /// A sequence of the given cells, in order.
    pub fn from_vec(value: Vec<BraillePattern>) -> (r: BrailleString)
        ensures
            r@ == value@,
    {
        let mut res = BrailleString::new();
        let mut i: usize = 0;
        while i < value.len()
            invariant
                i <= value@.len(),
                res@ == value@.take(i as int),
            decreases value@.len() - i,
        {
            res.push(value[i]);
            i = i + 1;
            assert(value@.take(i as int) =~= value@.take(i - 1).push(value@[i - 1]));
        }
        assert(value@.take(i as int) =~= value@);
        res
    }

    /// A sequence of one cell.
    pub fn from_pattern(value: BraillePattern) -> (r: BrailleString)
        ensures
            r@ == seq![value],
    {
        let mut res = BrailleString::new();
        res.push(value);
        assert(res@ =~= seq![value]);
        res
    }

    /// The cells named by a list of dot numbers, in order.
    pub fn from_dot_numbers(dots: &[usize]) -> (r: BrailleString)
        requires
            forall|i: int| 0 <= i < dots@.len() ==> is_dot_number(#[trigger] dots@[i] as int),
        ensures
            r@ == cells_of_dots(dots@),
    {
        let mut res = BrailleString::new();
        let mut i: usize = 0;
        while i < dots.len()
            invariant
                i <= dots@.len(),
                forall|j: int| 0 <= j < dots@.len() ==> is_dot_number(#[trigger] dots@[j] as int),
                res@ == cells_of_dots(dots@.take(i as int)),
            decreases dots@.len() - i,
        {
            res.push(BraillePattern::from_dots(dots[i]));
            i = i + 1;
            assert(cells_of_dots(dots@.take(i as int)) =~= cells_of_dots(dots@.take(i - 1)).push(
                BraillePattern::cell(dots@[i - 1] as int),
            ));
        }
        assert(dots@.take(i as int) =~= dots@);
        res
    }

    /// The display form: one character of the Braille block per cell, a line
    /// feed for each line-break sentinel.
    pub fn to_unicode(&self) -> (r: String)
        ensures
            r@ == display_text(self@),
    {
        let mut res = String::new();
        let n = self.len();
        let mut i: usize = 0;
        while i < n
            invariant
                n == self@.len(),
                i <= n,
                res@ == display_text(self@.take(i as int)),
            decreases n - i,
        {
            let c = self.get(i).to_unicode();
            push_char(&mut res, c);
            i = i + 1;
            assert(display_text(self@.take(i as int)) =~= display_text(self@.take(i - 1)).push(c));
        }
        assert(self@.take(i as int) =~= self@);
        res
    }
}

} // verus!
