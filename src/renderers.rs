//! The state threaded through one rendering: output so far, the kind of the
//! element that wrote last, and the classifier of the last letter.

use vstd::prelude::*;

use crate::letters::Classifier;
use crate::math_element::ElementType;
use crate::pattern::BraillePattern;
use crate::strings::BrailleString;

verus! {

/// What a renderer holds, as mathematical values.
pub struct RenderState {
    pub out: Seq<BraillePattern>,
    pub last_kind: Option<ElementType>,
    pub last_class: Option<Classifier>,
}

/// The state before anything is written.
pub open spec fn initial_state() -> RenderState {
    RenderState { out: Seq::empty(), last_kind: None, last_class: None }
}

/// Appends `cells` and records `kind` as the kind that wrote last.
pub open spec fn write_cells(s: RenderState, cells: Seq<BraillePattern>, kind: ElementType) -> RenderState {
    RenderState { out: s.out + cells, last_kind: Some(kind), last_class: s.last_class }
}

/// Replaces the classifier of the last letter.
pub open spec fn with_class(s: RenderState, cls: Option<Classifier>) -> RenderState {
    RenderState { out: s.out, last_kind: s.last_kind, last_class: cls }
}

/// Collects the cells of one rendering.
pub struct BasicRenderer {
    last_elem_type: Option<ElementType>,
    last_classifier: Option<Classifier>,
    res: BrailleString,
}

impl View for BasicRenderer {
    type V = RenderState;

    closed spec fn view(&self) -> RenderState {
        RenderState {
            out: self.res@,
            last_kind: self.last_elem_type,
            last_class: self.last_classifier,
        }
    }
}

impl BasicRenderer {
    /// A renderer that has written nothing.
    pub fn new() -> (r: BasicRenderer)
        ensures
            r@ == initial_state(),
    {
        BasicRenderer { last_elem_type: None, last_classifier: None, res: BrailleString::new() }
    }

    /// Appends the cells and records the kind of element they came from.
    pub fn write_string(&mut self, s: BrailleString, source_type: ElementType)
        ensures
            final(self)@ == write_cells(old(self)@, s@, source_type),
    {
        self.res.push_str(&s);
        self.last_elem_type = Some(source_type);
    }

    /// The cells written.
    pub fn finish(self) -> (r: BrailleString)
        ensures
            r@ == self@.out,
    {
        self.res
    }

    pub fn get_last_classifier(&self) -> (r: Option<Classifier>)
        ensures
            r == self@.last_class,
    {
        self.last_classifier
    }

    pub fn set_last_classifier(&mut self, cls: Option<Classifier>)
        ensures
            final(self)@ == with_class(old(self)@, cls),
    {
        self.last_classifier = cls;
    }

    pub fn get_last_element_type(&self) -> (r: Option<ElementType>)
        ensures
            r == self@.last_kind,
    {
        self.last_elem_type
    }
}

} // verus!
