//! Transcription of mathematical markup into six-dot mathematical Braille.

use vstd::prelude::*;

mod chars;
pub mod constants;
pub mod letters;
pub mod markup;
pub mod math_element;
pub mod pattern;
pub mod renderers;
pub mod strings;
pub mod symbol_tables;
pub mod xml;

use crate::chars::push_char;
use crate::markup::{builds, element_kind, tag_kind, MarkupNode};
use crate::math_element::{render_spec, MathElement};
use crate::pattern::BraillePattern;
use crate::renderers::{initial_state, BasicRenderer};
use crate::strings::BrailleString;
use crate::symbol_tables::{is_invisible_operator, normalize, normalize_spec};
use crate::xml::{markup_of, parse_markup, well_formed, MarkupError};

verus! {

/// The text with every character normalised and invisible operators dropped.
pub open spec fn normalized_text(s: Seq<char>) -> Seq<char>
    decreases s.len(),
{
    if s.len() == 0 {
        Seq::empty()
    } else {
        let rest = normalized_text(s.drop_last());
        match normalize_spec(s.last()) {
            Some(c) => rest.push(c),
            None => rest,
        }
    }
}

/// Passes every character of the text through [`normalize`].
pub fn normalize_text(ml: &str) -> (r: String)
    ensures
        r@ == normalized_text(ml@),
{
    let mut res = String::new();
    let n = ml.unicode_len();
    let mut i: usize = 0;
    while i < n
        invariant
            n == ml@.len(),
            i <= n,
            res@ == normalized_text(ml@.take(i as int)),
        decreases n - i,
    {
        let c = ml.get_char(i);
        proof {
            assert(ml@.take(i + 1).drop_last() =~= ml@.take(i as int));
            assert(ml@.take(i + 1).last() == c);
        }
        match normalize(c) {
            Some(d) => push_char(&mut res, d),
            None => {},
        }
        i = i + 1;
    }
    assert(ml@.take(n as int) =~= ml@);
    res
}

/// Invisible operators leave no trace in the normalised text.
pub proof fn lemma_invisible_operator_dropped(a: Seq<char>, c: char, b: Seq<char>)
    requires
        is_invisible_operator(c),
    ensures
        normalized_text(a + seq![c] + b) == normalized_text(a + b),
{
    lemma_normalized_concat(a + seq![c], b);
    lemma_normalized_concat(a, seq![c]);
    lemma_normalized_concat(a, b);
    assert(seq![c].drop_last() =~= Seq::<char>::empty());
    assert(normalized_text(Seq::<char>::empty()) == Seq::<char>::empty());
    assert(normalized_text(seq![c]) == Seq::<char>::empty());
    assert(normalized_text(a) + normalized_text(seq![c]) =~= normalized_text(a));
}

/// Normalising a concatenation normalises each part.
pub proof fn lemma_normalized_concat(a: Seq<char>, b: Seq<char>)
    ensures
        normalized_text(a + b) == normalized_text(a) + normalized_text(b),
    decreases b.len(),
{
    if b.len() == 0 {
        assert(a + b =~= a);
        assert(normalized_text(a) + normalized_text(b) =~= normalized_text(a));
    } else {
        lemma_normalized_concat(a, b.drop_last());
        assert((a + b).drop_last() =~= a + b.drop_last());
        assert((a + b).last() == b.last());
        assert(normalized_text(a) + normalized_text(b.drop_last()).push(b.last()) =~= (
        normalized_text(a) + normalized_text(b.drop_last())).push(b.last()));
    }
}

/// The cells of a markup tree: those of the expression read from it, or
/// none when its root tag is unknown.
pub fn render_markup(root: &MarkupNode) -> (r: BrailleString)
    ensures
        tag_kind(root@.tag) is None ==> r@ == Seq::<BraillePattern>::empty(),
        tag_kind(root@.tag) is Some ==> exists|e: MathElement|
            #[trigger] builds(root@, e) && r@ == render_spec(e, initial_state()).out,
{
    let mut r = BasicRenderer::new();
    if let Some(first) = MathElement::from_xml(root) {
        first.render(&mut r);
    }
    r.finish()
}

/// Transcribes markup text: normalises its characters, parses the result,
/// and renders the tree. Fails when the normalised text is not well-formed
/// markup, or when its root element is of no known kind.
pub fn render(ml: &str) -> (r: Result<BrailleString, MarkupError>)
    ensures
        r is Ok <==> well_formed(normalized_text(ml@)) && tag_kind(
            markup_of(normalized_text(ml@)).tag,
        ) is Some,
        r matches Err(err) ==> (err == MarkupError::Malformed <==> !well_formed(
            normalized_text(ml@),
        )) && (err == MarkupError::Malformed || err == MarkupError::UnknownRoot),
        r matches Ok(s) ==> exists|e: MathElement|
            #[trigger] builds(markup_of(normalized_text(ml@)), e) && s@ == render_spec(
                e,
                initial_state(),
            ).out,
{
    let text = normalize_text(ml);
    match parse_markup(text.as_str()) {
        Ok(root) => match element_kind(root.tag.as_str()) {
            Some(_) => Ok(render_markup(&root)),
            None => Err(MarkupError::UnknownRoot),
        },
        Err(_) => Err(MarkupError::Malformed),
    }
}

} // verus!
