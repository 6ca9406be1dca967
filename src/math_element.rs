//! The expression tree and its transcription into cells.

use vstd::prelude::*;

use crate::constants::{NUMBER_SIGN, PLACEHOLDER};
use crate::letters::{classify_spec, letter_cell, prefix_cells, Classifier, Letter};
use crate::pattern::{is_dot_number, BraillePattern};
use crate::renderers::{with_class, write_cells, BasicRenderer, RenderState};
use crate::strings::{cells1, cells2, cells_of_dots, BrailleString};
use crate::symbol_tables::{
    affinity_spec, braille_symbol, has_affinity, special_function, special_function_dots,
    symbol_cells,
};

verus! {

/// The position of a script part relative to its base.
#[derive(Clone, Copy, Debug, PartialEq, Eq, Structural)]
pub enum SubscriptType {
    Sub,
    Sup,
    SubSup,
    Under,
    Over,
    UnderOver,
}

} // verus!

verus! {

/// The kinds of element of an expression tree.
#[derive(Clone, Copy, Debug, PartialEq, Eq, Structural)]
pub enum ElementType {
    Root,
    Number,
    Ident,
    Operator,
    Row,
    Sqrt,
    Radical,
    Fraction,
    Subscript,
    Superscript,
    SubSuperscript,
    Underscript,
    Overscript,
    UnderOverscript,
}

/// A node of an expression tree: its kind, its parts in order, and its text
/// (read by numbers, identifiers and operators only).
pub struct MathElement {
    pub element: ElementType,
    pub children: Vec<MathElement>,
    pub text: String,
}


/// How the digits of a number are written.
#[derive(Clone, Copy, Debug, PartialEq, Eq, Structural)]
pub enum NumberForm {
    /// The numeral indicator, then the upper digits.
    Ordinary,
    /// The upper digits alone.
    Upper,
    /// The lower digits, as in a root index or a script.
    Lower,
}

/// Whether `c` is an ASCII decimal digit.
pub open spec fn is_digit(c: char) -> bool {
    '0' <= c <= '9'
}

/// Dot number of a character of a number in the given form.
pub open spec fn digit_dots(c: char, lower: bool) -> usize {
    if c == '0' {
        if lower { 356 } else { 245 }
    } else if c == '1' {
        if lower { 2 } else { 1 }
    } else if c == '2' {
        if lower { 23 } else { 12 }
    } else if c == '3' {
        if lower { 25 } else { 14 }
    } else if c == '4' {
        if lower { 256 } else { 145 }
    } else if c == '5' {
        if lower { 26 } else { 15 }
    } else if c == '6' {
        if lower { 235 } else { 124 }
    } else if c == '7' {
        if lower { 2356 } else { 1245 }
    } else if c == '8' {
        if lower { 236 } else { 125 }
    } else if c == '9' {
        if lower { 35 } else { 24 }
    } else if c == ',' || c == '.' {
        2
    } else {
        PLACEHOLDER
    }
}

/// The cells of the text of a number written in the given form.
pub open spec fn number_cells(text: Seq<char>, form: NumberForm) -> Seq<BraillePattern> {
    let digits = text.map_values(
        |c: char| BraillePattern::cell(digit_dots(c, form == NumberForm::Lower) as int),
    );
    if form == NumberForm::Ordinary {
        seq![BraillePattern::cell(NUMBER_SIGN as int)] + digits
    } else {
        digits
    }
}

/// Whether `e` is a plus or minus operator.
pub open spec fn is_sign_operator(e: MathElement) -> bool {
    e.element == ElementType::Operator && (e.text@ == seq!['-'] || e.text@ == seq!['+'])
}

/// Whether `e` is an integer literal, possibly signed, possibly in rows of
/// one element.
pub open spec fn is_integer_spec(e: MathElement) -> bool
    decreases e,
{
    match e.element {
        ElementType::Number => forall|i: int| 0 <= i < e.text@.len() ==> is_digit(#[trigger] e.text@[i]),
        ElementType::Row => if e.children@.len() == 1 {
            is_integer_spec(e.children@[0])
        } else if e.children@.len() == 2 {
            is_sign_operator(e.children@[0]) && is_integer_spec(e.children@[1])
        } else {
            false
        },
        _ => false,
    }
}

/// Whether `e` is one identifier, possibly in rows of one element.
pub open spec fn is_single_ident_spec(e: MathElement) -> bool
    decreases e,
{
    match e.element {
        ElementType::Ident => true,
        ElementType::Row => e.children@.len() == 1 && is_single_ident_spec(e.children@[0]),
        _ => false,
    }
}

/// Whether `e` holds operators only: an operator, or a row whose parts from
/// `i` on hold operators only.
pub open spec fn operators_from(e: MathElement, i: int) -> bool
    decreases e, e.children@.len() - i,
{
    if i < 0 || i >= e.children@.len() {
        true
    } else {
        is_operators_spec(e.children@[i]) && operators_from(e, i + 1)
    }
}

pub open spec fn is_operators_spec(e: MathElement) -> bool
    decreases e, e.children@.len() + 1,
{
    match e.element {
        ElementType::Operator => true,
        ElementType::Row => operators_from(e, 0),
        _ => false,
    }
}

/// Whether the last element written was one after which a plus or minus
/// sign is binary.
pub open spec fn ends_operand(k: Option<ElementType>) -> bool {
    match k {
        Some(ElementType::Number) | Some(ElementType::Ident) | Some(ElementType::Fraction) | Some(
            ElementType::Sqrt,
        ) | Some(ElementType::Radical) => true,
        _ => false,
    }
}

pub open spec fn is_sign_char(c: char) -> bool {
    c == '+' || c == '-' || c == '\u{b1}' || c == '\u{2213}'
}

/// Writes the characters of an operator, each after a separating empty cell
/// when it is a sign that follows an operand.
pub open spec fn operator_spec(text: Seq<char>, s: RenderState) -> RenderState
    decreases text.len(),
{
    if text.len() == 0 {
        s
    } else {
        let s1 = operator_spec(text.drop_last(), s);
        let c = text.last();
        let s2 = if is_sign_char(c) && ends_operand(s1.last_kind) {
            write_cells(s1, cells_of_dots(seq![0]), ElementType::Operator)
        } else {
            s1
        };
        write_cells(s2, symbol_cells(c), ElementType::Operator)
    }
}

/// Whether a letter needs its classifier's prefix, given the classifier of
/// the last letter and the kind of the last element written.
pub open spec fn needs_prefix(
    last_class: Option<Classifier>,
    last_kind: Option<ElementType>,
    l: Letter,
) -> bool {
    match last_class {
        None => true,
        Some(c) => c != l.1 || (last_kind == Some(ElementType::Number) && !letter_cell(l).lower_dots()),
    }
}

/// The cells of the characters of an identifier and the classifier of its
/// last letter, starting from `last_class`.
pub open spec fn ident_fold(
    text: Seq<char>,
    last_kind: Option<ElementType>,
    last_class: Option<Classifier>,
) -> (Seq<BraillePattern>, Option<Classifier>)
    decreases text.len(),
{
    if text.len() == 0 {
        (Seq::empty(), last_class)
    } else {
        let (cells, cls) = ident_fold(text.drop_last(), last_kind, last_class);
        let c = text.last();
        match classify_spec(c) {
            Some(l) => {
                let prefix = if needs_prefix(cls, last_kind, l) {
                    prefix_cells(l.1)
                } else {
                    Seq::empty()
                };
                (cells + prefix + seq![letter_cell(l)], Some(l.1))
            },
            None => (cells + symbol_cells(c), cls),
        }
    }
}

/// Writes an identifier: the cells of a known function name, or the cells
/// of its characters one by one.
pub open spec fn ident_spec(text: Seq<char>, s: RenderState) -> RenderState {
    match special_function_dots(text) {
        Some(d) => write_cells(with_class(s, None), cells_of_dots(d), ElementType::Ident),
        None => {
            let (cells, cls) = ident_fold(text, s.last_kind, s.last_class);
            write_cells(with_class(s, cls), cells, ElementType::Ident)
        },
    }
}

/// Dot numbers of the marker that opens a script part.
pub open spec fn opening_dots(k: SubscriptType) -> Seq<usize> {
    match k {
        SubscriptType::Sub => seq![16],
        SubscriptType::Sup => seq![34],
        SubscriptType::SubSup => seq![16],
        SubscriptType::Under => seq![46, 16],
        SubscriptType::Over => seq![46, 34],
        SubscriptType::UnderOver => seq![46, 16],
    }
}

/// Whether a script part of this kind is closed by a marker.
pub open spec fn is_closed_script(k: SubscriptType) -> bool {
    match k {
        SubscriptType::Sub | SubscriptType::Under | SubscriptType::SubSup
        | SubscriptType::UnderOver => true,
        _ => false,
    }
}

/// Dot numbers of the short marker before an embellishment that does not
/// attach by itself.
pub open spec fn embellishment_dots(k: SubscriptType) -> Seq<usize> {
    match k {
        SubscriptType::Under | SubscriptType::UnderOver => seq![56],
        SubscriptType::Sub | SubscriptType::SubSup => seq![456],
        SubscriptType::Over => seq![45],
        SubscriptType::Sup => seq![46],
    }
}

/// The kind of the first script part of a scripted element.
pub open spec fn script_kind(e: ElementType) -> SubscriptType {
    match e {
        ElementType::Subscript => SubscriptType::Sub,
        ElementType::Superscript => SubscriptType::Sup,
        ElementType::SubSuperscript => SubscriptType::SubSup,
        ElementType::Underscript => SubscriptType::Under,
        ElementType::Overscript => SubscriptType::Over,
        _ => SubscriptType::UnderOver,
    }
}

pub open spec fn part_is_integer(e: MathElement, i: int) -> bool {
    0 <= i < e.children@.len() && is_integer_spec(e.children@[i])
}

pub open spec fn part_is_simple(e: MathElement, i: int) -> bool {
    0 <= i < e.children@.len() && (is_integer_spec(e.children@[i]) || is_single_ident_spec(
        e.children@[i],
    ))
}

/// Renders the parts of `e` from `i` on, in order.
pub open spec fn children_spec(e: MathElement, i: int, s: RenderState) -> RenderState
    decreases e, e.children@.len() - i,
{
    if 0 <= i < e.children@.len() {
        children_spec(e, i + 1, render_spec(e.children@[i], s))
    } else {
        s
    }
}

/// Renders part `i` of `e`; a missing part renders as nothing.
pub open spec fn part_spec(e: MathElement, i: int, s: RenderState) -> RenderState
    decreases e, 0int,
{
    if 0 <= i < e.children@.len() {
        render_spec(e.children@[i], s)
    } else {
        s
    }
}

/// Writes an integer-shaped element in the given number form: a sign
/// operator is rendered as an operator, the digits in that form.
pub open spec fn integer_spec(e: MathElement, form: NumberForm, s: RenderState) -> RenderState
    decreases e, e.children@.len() + 2,
{
    match e.element {
        ElementType::Number => write_cells(s, number_cells(e.text@, form), ElementType::Number),
        ElementType::Row => if e.children@.len() == 1 {
            integer_spec(e.children@[0], form, s)
        } else if e.children@.len() == 2 {
            integer_spec(e.children@[1], form, render_spec(e.children@[0], s))
        } else {
            s
        },
        _ => s,
    }
}

/// Renders a part in a script position of kind `k`, under the element of
/// kind `parent`.
pub open spec fn in_script_spec(
    part: MathElement,
    k: SubscriptType,
    parent: ElementType,
    s: RenderState,
) -> RenderState
    decreases part, part.children@.len() + 4,
{
    if is_operators_spec(part) {
        embellishment_spec(part, k, parent, s)
    } else {
        let s1 = write_cells(s, cells_of_dots(opening_dots(k)), parent);
        let s2 = if is_integer_spec(part) {
            integer_spec(part, NumberForm::Lower, s1)
        } else {
            render_spec(part, s1)
        };
        if is_closed_script(k) {
            write_cells(s2, cells_of_dots(seq![156]), parent)
        } else {
            s2
        }
    }
}

/// Renders a part made of operators only, each bare mark preceded by a
/// short marker unless it attaches by itself.
pub open spec fn embellishment_spec(
    part: MathElement,
    k: SubscriptType,
    parent: ElementType,
    s: RenderState,
) -> RenderState
    decreases part, part.children@.len() + 3,
{
    if part.element == ElementType::Operator {
        let first = if part.text@.len() > 0 {
            part.text@[0]
        } else {
            '0'
        };
        let s1 = if affinity_spec(first, k) {
            s
        } else {
            write_cells(s, cells_of_dots(embellishment_dots(k)), parent)
        };
        render_spec(part, s1)
    } else {
        embellishment_from(part, 0, k, parent, s)
    }
}

pub open spec fn embellishment_from(
    e: MathElement,
    i: int,
    k: SubscriptType,
    parent: ElementType,
    s: RenderState,
) -> RenderState
    decreases e, e.children@.len() - i,
{
    if 0 <= i < e.children@.len() {
        embellishment_from(e, i + 1, k, parent, embellishment_spec(e.children@[i], k, parent, s))
    } else {
        s
    }
}

/// Renders a fraction: digits alone for two integers, a fraction line
/// between simple parts, else the begin, line and end markers around them.
/// An integer denominator is written in lower digits.
pub open spec fn fraction_spec(e: MathElement, s: RenderState) -> RenderState
    decreases e, e.children@.len() + 1,
{
    if part_is_integer(e, 0) && part_is_integer(e, 1) {
        integer_spec(
            e.children@[1],
            NumberForm::Lower,
            integer_spec(e.children@[0], NumberForm::Upper, s),
        )
    } else if part_is_simple(e, 0) && part_is_simple(e, 1) {
        let s1 = render_spec(e.children@[0], s);
        let s2 = write_cells(s1, cells_of_dots(seq![1256]), ElementType::Fraction);
        if part_is_integer(e, 1) {
            integer_spec(e.children@[1], NumberForm::Lower, s2)
        } else {
            render_spec(e.children@[1], s2)
        }
    } else {
        let s1 = write_cells(s, cells_of_dots(seq![23]), ElementType::Operator);
        let s2 = part_spec(e, 0, s1);
        let s3 = write_cells(s2, cells_of_dots(seq![0, 1256]), ElementType::Fraction);
        let s4 = if part_is_integer(e, 1) {
            integer_spec(e.children@[1], NumberForm::Lower, s3)
        } else {
            part_spec(e, 1, s3)
        };
        write_cells(s4, cells_of_dots(seq![56]), ElementType::Fraction)
    }
}

/// Renders a root: the opening marker, for an n-th root the index and its
/// closing marker, the radicand, the closing marker.
pub open spec fn radical_spec(e: MathElement, s: RenderState) -> RenderState
    decreases e, e.children@.len() + 1,
{
    let s1 = write_cells(s, cells_of_dots(seq![146]), e.element);
    let s3 = if e.element == ElementType::Radical {
        let s2 = if part_is_integer(e, 1) {
            integer_spec(e.children@[1], NumberForm::Lower, s1)
        } else {
            part_spec(e, 1, s1)
        };
        write_cells(s2, cells_of_dots(seq![156]), e.element)
    } else {
        s1
    };
    let s4 = part_spec(e, 0, s3);
    write_cells(s4, cells_of_dots(seq![1456]), e.element)
}

/// Renders a scripted element: its base, then its script parts.
pub open spec fn subscript_spec(e: MathElement, s: RenderState) -> RenderState
    decreases e, e.children@.len() + 1,
{
    let k = script_kind(e.element);
    let s1 = part_spec(e, 0, s);
    let s2 = if 1 < e.children@.len() {
        in_script_spec(e.children@[1], k, e.element, s1)
    } else {
        s1
    };
    if 2 < e.children@.len() && k == SubscriptType::SubSup {
        in_script_spec(e.children@[2], SubscriptType::Sup, e.element, s2)
    } else if 2 < e.children@.len() && k == SubscriptType::UnderOver {
        in_script_spec(e.children@[2], SubscriptType::Over, e.element, s2)
    } else {
        s2
    }
}

/// The transcription of an element into cells, as a change of the render
/// state.
pub open spec fn render_spec(e: MathElement, s: RenderState) -> RenderState
    decreases e, e.children@.len() + 2,
{
    match e.element {
        ElementType::Root | ElementType::Row => children_spec(e, 0, s),
        ElementType::Number => write_cells(
            s,
            number_cells(e.text@, NumberForm::Ordinary),
            ElementType::Number,
        ),
        ElementType::Ident => ident_spec(e.text@, s),
        ElementType::Operator => operator_spec(e.text@, s),
        ElementType::Sqrt | ElementType::Radical => radical_spec(e, s),
        ElementType::Fraction => fraction_spec(e, s),
        _ => subscript_spec(e, s),
    }
}

fn exec_digit_dots(c: char, lower: bool) -> (r: usize)
    ensures
        r == digit_dots(c, lower),
        is_dot_number(r as int),
{
    if c == '0' {
        if lower { 356 } else { 245 }
    } else if c == '1' {
        if lower { 2 } else { 1 }
    } else if c == '2' {
        if lower { 23 } else { 12 }
    } else if c == '3' {
        if lower { 25 } else { 14 }
    } else if c == '4' {
        if lower { 256 } else { 145 }
    } else if c == '5' {
        if lower { 26 } else { 15 }
    } else if c == '6' {
        if lower { 235 } else { 124 }
    } else if c == '7' {
        if lower { 2356 } else { 1245 }
    } else if c == '8' {
        if lower { 236 } else { 125 }
    } else if c == '9' {
        if lower { 35 } else { 24 }
    } else if c == ',' || c == '.' {
        2
    } else {
        PLACEHOLDER
    }
}

impl MathElement {
    /// An element of the given kind, parts and text.
    pub fn new(element: ElementType, children: Vec<MathElement>, text: String) -> (r: MathElement)
        ensures
            r.element == element,
            r.children@ == children@,
            r.text@ == text@,
    {
        MathElement { element, children, text }
    }

    /// Whether the element is an integer literal, possibly signed.
    pub fn is_integer(&self) -> (r: bool)
        ensures
            r == is_integer_spec(*self),
        decreases *self,
    {
        match self.element {
            ElementType::Number => all_digits(self.text.as_str()),
            ElementType::Row => {
                if self.children.len() == 1 {
                    self.children[0].is_integer()
                } else if self.children.len() == 2 {
                    let sign = &self.children[0];
                    if sign.element == ElementType::Operator && (text_equals(&sign.text, '-')
                        || text_equals(&sign.text, '+')) {
                        self.children[1].is_integer()
                    } else {
                        false
                    }
                } else {
                    false
                }
            },
            _ => false,
        }
    }

    /// Whether the element holds operators only.
    pub fn is_operators(&self) -> (r: bool)
        ensures
            r == is_operators_spec(*self),
        decreases *self, self.children@.len() + 1,
    {
        match self.element {
            ElementType::Operator => true,
            ElementType::Row => self.operators_from(0),
            _ => false,
        }
    }

    fn operators_from(&self, i: usize) -> (r: bool)
        requires
            i <= self.children@.len(),
        ensures
            r == operators_from(*self, i as int),
        decreases *self, self.children@.len() - i,
    {
        if i >= self.children.len() {
            true
        } else if !self.children[i].is_operators() {
            false
        } else {
            self.operators_from(i + 1)
        }
    }

    /// Whether the element is one identifier, possibly in rows of one part.
    pub fn is_single_ident(&self) -> (r: bool)
        ensures
            r == is_single_ident_spec(*self),
        decreases *self,
    {
        match self.element {
            ElementType::Ident => true,
            ElementType::Row => self.children.len() == 1 && self.children[0].is_single_ident(),
            _ => false,
        }
    }

    /// Writes the text of a number in the given form.
    fn render_number(&self, r: &mut BasicRenderer, form: NumberForm)
        ensures
            final(r)@ == write_cells(old(r)@, number_cells(self.text@, form), ElementType::Number),
    {
        let lower = form == NumberForm::Lower;
        let mut res = BrailleString::new();
        if form == NumberForm::Ordinary {
            res.push(BraillePattern::from_dots(NUMBER_SIGN));
        }
        let ghost head = res@;
        let text = self.text.as_str();
        let n = text.unicode_len();
        let mut i: usize = 0;
        while i < n
            invariant
                n == text@.len(),
                text@ == self.text@,
                i <= n,
                lower == (form == NumberForm::Lower),
                head == (if form == NumberForm::Ordinary {
                    seq![BraillePattern::cell(NUMBER_SIGN as int)]
                } else {
                    Seq::empty()
                }),
                res@ == head + text@.take(i as int).map_values(
                    |c: char| BraillePattern::cell(digit_dots(c, lower) as int),
                ),
            decreases n - i,
        {
            let c = text.get_char(i);
            res.push(BraillePattern::from_dots(exec_digit_dots(c, lower)));
            i = i + 1;
            assert(text@.take(i as int).map_values(
                |c: char| BraillePattern::cell(digit_dots(c, lower) as int),
            ) =~= text@.take(i - 1).map_values(
                |c: char| BraillePattern::cell(digit_dots(c, lower) as int),
            ).push(BraillePattern::cell(digit_dots(c, lower) as int)));
        }
        assert(text@.take(i as int) =~= text@);
        assert(res@ =~= number_cells(self.text@, form));
        r.write_string(res, ElementType::Number);
    }

    /// Writes the characters of an operator.
    fn render_operator(&self, r: &mut BasicRenderer)
        ensures
            final(r)@ == operator_spec(self.text@, old(r)@),
    {
        let ghost s0 = r@;
        let text = self.text.as_str();
        let n = text.unicode_len();
        let mut i: usize = 0;
        while i < n
            invariant
                n == text@.len(),
                text@ == self.text@,
                i <= n,
                r@ == operator_spec(text@.take(i as int), s0),
            decreases n - i,
        {
            let c = text.get_char(i);
            proof {
                assert(text@.take(i + 1).drop_last() =~= text@.take(i as int));
                assert(text@.take(i + 1).last() == c);
            }
            if c == '+' || c == '-' || c == '\u{b1}' || c == '\u{2213}' {
                let separates = match r.get_last_element_type() {
                    Some(ElementType::Number) | Some(ElementType::Ident) | Some(
                        ElementType::Fraction,
                    ) | Some(ElementType::Sqrt) | Some(ElementType::Radical) => true,
                    _ => false,
                };
                if separates {
                    r.write_string(cells1(0), ElementType::Operator);
                }
            }
            r.write_string(braille_symbol(c), ElementType::Operator);
            i = i + 1;
        }
        assert(text@.take(n as int) =~= text@);
    }

    /// Writes an identifier.
    fn render_ident(&self, r: &mut BasicRenderer)
        ensures
            final(r)@ == ident_spec(self.text@, old(r)@),
    {
        let text = self.text.as_str();
        match special_function(text) {
            Some(f) => {
                r.set_last_classifier(None);
                r.write_string(f, ElementType::Ident);
            },
            None => {
                let ghost s0 = r@;
                let last_kind = r.get_last_element_type();
                let mut res = BrailleString::new();
                let n = text.unicode_len();
                let mut i: usize = 0;
                while i < n
                    invariant
                        n == text@.len(),
                        text@ == self.text@,
                        i <= n,
                        last_kind == s0.last_kind,
                        res@ == ident_fold(text@.take(i as int), s0.last_kind, s0.last_class).0,
                        r@ == with_class(
                            s0,
                            ident_fold(text@.take(i as int), s0.last_kind, s0.last_class).1,
                        ),
                    decreases n - i,
                {
                    let c = text.get_char(i);
                    proof {
                        assert(text@.take(i + 1).drop_last() =~= text@.take(i as int));
                        assert(text@.take(i + 1).last() == c);
                    }
                    match Classifier::classify(c) {
                        Some(l) => {
                            let dots = l.get_rendering();
                            let prefix_needed = match r.get_last_classifier() {
                                Some(last) => last != l.1 || (matches!(last_kind, Some(ElementType::Number))
                                    && !dots.has_lower_dots()),
                                None => true,
                            };
                            if prefix_needed {
                                res.push_str(&l.1.get_prefix());
                            }
                            res.push(dots);
                            r.set_last_classifier(Some(l.1));
                        },
                        None => {
                            res.push_str(&braille_symbol(c));
                        },
                    }
                    i = i + 1;
                }
                assert(text@.take(n as int) =~= text@);
                r.write_string(res, ElementType::Ident);
            },
        }
    }
}

impl MathElement {
    /// Writes the cells of the element and of its parts.
    pub fn render(&self, r: &mut BasicRenderer)
        ensures
            final(r)@ == render_spec(*self, old(r)@),
        decreases *self, self.children@.len() + 2,
    {
        match self.element {
            ElementType::Root | ElementType::Row => self.render_children(r),
            ElementType::Number => self.render_number(r, NumberForm::Ordinary),
            ElementType::Ident => self.render_ident(r),
            ElementType::Operator => self.render_operator(r),
            ElementType::Sqrt | ElementType::Radical => self.render_radical(r),
            ElementType::Fraction => self.render_fraction(r),
            _ => self.render_subscript(r),
        }
    }

    fn render_children(&self, r: &mut BasicRenderer)
        ensures
            final(r)@ == children_spec(*self, 0, old(r)@),
        decreases *self, self.children@.len() + 1,
    {
        let n = self.children.len();
        let mut i: usize = 0;
        while i < n
            invariant
                n == self.children@.len(),
                i <= n,
                children_spec(*self, 0, old(r)@) == children_spec(*self, i as int, r@),
            decreases n - i,
        {
            self.children[i].render(r);
            i = i + 1;
        }
    }

    /// Renders part `i`, if there is one.
    fn render_part(&self, r: &mut BasicRenderer, i: usize)
        ensures
            final(r)@ == part_spec(*self, i as int, old(r)@),
        decreases *self, 0int,
    {
        if i < self.children.len() {
            self.children[i].render(r);
        }
    }

    /// Writes an integer-shaped element in the given number form.
    fn render_integer(&self, r: &mut BasicRenderer, form: NumberForm)
        ensures
            final(r)@ == integer_spec(*self, form, old(r)@),
        decreases *self, self.children@.len() + 2,
    {
        match self.element {
            ElementType::Number => self.render_number(r, form),
            ElementType::Row => {
                if self.children.len() == 1 {
                    self.children[0].render_integer(r, form);
                } else if self.children.len() == 2 {
                    self.children[0].render(r);
                    self.children[1].render_integer(r, form);
                }
            },
            _ => {},
        }
    }

    fn render_radical(&self, r: &mut BasicRenderer)
        requires
            self.element == ElementType::Sqrt || self.element == ElementType::Radical,
        ensures
            final(r)@ == radical_spec(*self, old(r)@),
        decreases *self, self.children@.len() + 1,
    {
        r.write_string(cells1(146), self.element);
        if self.element == ElementType::Radical {
            if 1 < self.children.len() && self.children[1].is_integer() {
                self.children[1].render_integer(r, NumberForm::Lower);
            } else {
                self.render_part(r, 1);
            }
            r.write_string(cells1(156), self.element);
        }
        self.render_part(r, 0);
        r.write_string(cells1(1456), self.element);
    }

    fn render_fraction(&self, r: &mut BasicRenderer)
        ensures
            final(r)@ == fraction_spec(*self, old(r)@),
        decreases *self, self.children@.len() + 1,
    {
        let n = self.children.len();
        let num_integer = 0 < n && self.children[0].is_integer();
        let denom_integer = 1 < n && self.children[1].is_integer();
        if num_integer && denom_integer {
            self.children[0].render_integer(r, NumberForm::Upper);
            self.children[1].render_integer(r, NumberForm::Lower);
        } else if (num_integer || (0 < n && self.children[0].is_single_ident())) && (denom_integer
            || (1 < n && self.children[1].is_single_ident())) {
            self.children[0].render(r);
            r.write_string(cells1(1256), ElementType::Fraction);
            if denom_integer {
                self.children[1].render_integer(r, NumberForm::Lower);
            } else {
                self.children[1].render(r);
            }
        } else {
            r.write_string(cells1(23), ElementType::Operator);
            self.render_part(r, 0);
            r.write_string(cells2(0, 1256), ElementType::Fraction);
            if denom_integer {
                self.children[1].render_integer(r, NumberForm::Lower);
            } else {
                self.render_part(r, 1);
            }
            r.write_string(cells1(56), ElementType::Fraction);
        }
    }

    /// Renders this element as a script part of kind `script_type` under an
    /// element of kind `parent`.
    fn render_in_script(&self, r: &mut BasicRenderer, script_type: SubscriptType, parent: ElementType)
        ensures
            final(r)@ == in_script_spec(*self, script_type, parent, old(r)@),
        decreases *self, self.children@.len() + 4,
    {
        if self.is_operators() {
            self.render_embelishment(r, script_type, parent);
        } else {
            let opening = match script_type {
                SubscriptType::Sub => cells1(16),
                SubscriptType::Sup => cells1(34),
                SubscriptType::SubSup => cells1(16),
                SubscriptType::Under => cells2(46, 16),
                SubscriptType::Over => cells2(46, 34),
                SubscriptType::UnderOver => cells2(46, 16),
            };
            r.write_string(opening, parent);
            if self.is_integer() {
                self.render_integer(r, NumberForm::Lower);
            } else {
                self.render(r);
            }
            match script_type {
                SubscriptType::Sup | SubscriptType::Over => {},
                _ => r.write_string(cells1(156), parent),
            }
        }
    }

    /// Renders a part made of operators only, qualifying each bare mark.
    fn render_embelishment(
        &self,
        r: &mut BasicRenderer,
        script_type: SubscriptType,
        parent: ElementType,
    )
        ensures
            final(r)@ == embellishment_spec(*self, script_type, parent, old(r)@),
        decreases *self, self.children@.len() + 3,
    {
        if self.element == ElementType::Operator {
            let text = self.text.as_str();
            let first = if text.unicode_len() > 0 {
                text.get_char(0)
            } else {
                '0'
            };
            if !has_affinity(first, script_type) {
                let marker = match script_type {
                    SubscriptType::Under | SubscriptType::UnderOver => cells1(56),
                    SubscriptType::Sub | SubscriptType::SubSup => cells1(456),
                    SubscriptType::Over => cells1(45),
                    SubscriptType::Sup => cells1(46),
                };
                r.write_string(marker, parent);
            }
            self.render(r);
        } else {
            let n = self.children.len();
            let mut i: usize = 0;
            while i < n
                invariant
                    n == self.children@.len(),
                    i <= n,
                    self.element != ElementType::Operator,
                    embellishment_from(*self, 0, script_type, parent, old(r)@) == embellishment_from(
                        *self,
                        i as int,
                        script_type,
                        parent,
                        r@,
                    ),
                decreases n - i,
            {
                self.children[i].render_embelishment(r, script_type, parent);
                i = i + 1;
            }
        }
    }

    fn render_subscript(&self, r: &mut BasicRenderer)
        ensures
            final(r)@ == subscript_spec(*self, old(r)@),
        decreases *self, self.children@.len() + 1,
    {
        let kind = match self.element {
            ElementType::Subscript => SubscriptType::Sub,
            ElementType::Superscript => SubscriptType::Sup,
            ElementType::SubSuperscript => SubscriptType::SubSup,
            ElementType::Underscript => SubscriptType::Under,
            ElementType::Overscript => SubscriptType::Over,
            _ => SubscriptType::UnderOver,
        };
        self.render_part(r, 0);
        let n = self.children.len();
        if 1 < n {
            self.children[1].render_in_script(r, kind, self.element);
        }
        if 2 < n && kind == SubscriptType::SubSup {
            self.children[2].render_in_script(r, SubscriptType::Sup, self.element);
        } else if 2 < n && kind == SubscriptType::UnderOver {
            self.children[2].render_in_script(r, SubscriptType::Over, self.element);
        }
    }
}

/// Whether every character of the text is a decimal digit.
fn all_digits(text: &str) -> (r: bool)
    ensures
        r == forall|j: int| 0 <= j < text@.len() ==> is_digit(#[trigger] text@[j]),
{
    let n = text.unicode_len();
    let mut i: usize = 0;
    while i < n
        invariant
            n == text@.len(),
            i <= n,
            forall|j: int| 0 <= j < i ==> is_digit(#[trigger] text@[j]),
        decreases n - i,
    {
        let c = text.get_char(i);
        if !('0' <= c && c <= '9') {
            assert(!is_digit(text@[i as int]));
            return false;
        }
        i = i + 1;
    }
    true
}

/// Whether the text is exactly the one character `c`.
fn text_equals(text: &String, c: char) -> (r: bool)
    ensures
        r == (text@ == seq![c]),
{
    let t = text.as_str();
    if t.unicode_len() != 1 {
        return false;
    }
    let first = t.get_char(0);
    assert(first == c ==> t@ =~= seq![c]);
    first == c
}

} // verus!
