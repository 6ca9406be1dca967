//! The tagged tree that a markup parser hands over, and its reading into an
//! expression tree.

use vstd::prelude::*;

use crate::chars::text_is;
use crate::math_element::{ElementType, MathElement};

verus! {

/// A node of parsed markup: its tag name (empty for a node that is not an
/// element), its text, and its children in document order.
pub struct MarkupNode {
    pub tag: String,
    pub text: String,
    pub children: Vec<MarkupNode>,
}

/// The kind of element that a tag name stands for, if any.
pub open spec fn tag_kind(tag: Seq<char>) -> Option<ElementType> {
    if tag == seq!['m', 'a', 't', 'h'] {
        Some(ElementType::Root)
    } else if tag == seq!['m', 'r', 'o', 'w'] {
        Some(ElementType::Row)
    } else if tag == seq!['m', 'n'] {
        Some(ElementType::Number)
    } else if tag == seq!['m', 'i'] {
        Some(ElementType::Ident)
    } else if tag == seq!['m', 'o'] {
        Some(ElementType::Operator)
    } else if tag == seq!['m', 'r', 'o', 'o', 't'] {
        Some(ElementType::Radical)
    } else if tag == seq!['m', 's', 'q', 'r', 't'] {
        Some(ElementType::Sqrt)
    } else if tag == seq!['m', 'f', 'r', 'a', 'c'] {
        Some(ElementType::Fraction)
    } else if tag == seq!['m', 's', 'u', 'b'] {
        Some(ElementType::Subscript)
    } else if tag == seq!['m', 's', 'u', 'p'] {
        Some(ElementType::Superscript)
    } else if tag == seq!['m', 's', 'u', 'b', 's', 'u', 'p'] {
        Some(ElementType::SubSuperscript)
    } else if tag == seq!['m', 'u', 'n', 'd', 'e', 'r'] {
        Some(ElementType::Underscript)
    } else if tag == seq!['m', 'o', 'v', 'e', 'r'] {
        Some(ElementType::Overscript)
    } else if tag == seq!['m', 'u', 'n', 'd', 'e', 'r', 'o', 'v', 'e', 'r'] {
        Some(ElementType::UnderOverscript)
    } else {
        None
    }
}

/// A markup element as a mathematical value: tag name, text, children.
pub struct MarkupTree {
    pub tag: Seq<char>,
    pub text: Seq<char>,
    pub children: Seq<MarkupTree>,
}

/// The tree that a markup node holds.
pub open spec fn tree_of(m: MarkupNode) -> MarkupTree
    decreases m, m.children@.len() + 1,
{
    MarkupTree { tag: m.tag@, text: m.text@, children: trees_of(m, m.children@.len() as int) }
}

/// The trees of the first `k` children of `m`.
pub open spec fn trees_of(m: MarkupNode, k: int) -> Seq<MarkupTree>
    decreases m, k,
{
    if k <= 0 || k > m.children@.len() {
        Seq::empty()
    } else {
        trees_of(m, k - 1).push(tree_of(m.children@[k - 1]))
    }
}

impl View for MarkupNode {
    type V = MarkupTree;

    open spec fn view(&self) -> MarkupTree {
        tree_of(*self)
    }
}

proof fn lemma_trees_of(m: MarkupNode, k: int)
    requires
        0 <= k <= m.children@.len(),
    ensures
        trees_of(m, k).len() == k,
        forall|j: int| 0 <= j < k ==> #[trigger] trees_of(m, k)[j] == tree_of(m.children@[j]),
    decreases k,
{
    if k > 0 {
        lemma_trees_of(m, k - 1);
    }
}

/// `e` is the expression tree read from `n`: the kind of `n`'s tag, its
/// text, and the trees read from those of its children whose tag is known.
pub open spec fn builds(n: MarkupTree, e: MathElement) -> bool
    decreases n, n.children.len() + 1,
{
    &&& tag_kind(n.tag) == Some(e.element)
    &&& e.text@ == n.text
    &&& builds_list(n, n.children.len() as int, e.children@)
}

/// `es` are the trees read from the first `k` children of `n`; a child of
/// unknown tag gives no tree, and neither do its descendants.
pub open spec fn builds_list(n: MarkupTree, k: int, es: Seq<MathElement>) -> bool
    decreases n, k,
{
    if k <= 0 || k > n.children.len() {
        es.len() == 0
    } else {
        let c = n.children[k - 1];
        if tag_kind(c.tag) is Some {
            es.len() > 0 && builds(c, es.last()) && builds_list(n, k - 1, es.drop_last())
        } else {
            builds_list(n, k - 1, es)
        }
    }
}

impl MarkupNode {
    pub fn new(tag: String, text: String, children: Vec<MarkupNode>) -> (r: MarkupNode)
        ensures
            r.tag@ == tag@,
            r.text@ == text@,
            r.children@ == children@,
            r@.tag == tag@,
            r@.text == text@,
    {
        MarkupNode { tag, text, children }
    }
}

/// The kind of element that a tag name stands for.
pub fn element_kind(tag: &str) -> (r: Option<ElementType>)
    ensures
        r == tag_kind(tag@),
{
    proof {
        reveal_strlit("math");
        assert("math"@ =~= seq!['m', 'a', 't', 'h']);
        reveal_strlit("mrow");
        assert("mrow"@ =~= seq!['m', 'r', 'o', 'w']);
        reveal_strlit("mn");
        assert("mn"@ =~= seq!['m', 'n']);
        reveal_strlit("mi");
        assert("mi"@ =~= seq!['m', 'i']);
        reveal_strlit("mo");
        assert("mo"@ =~= seq!['m', 'o']);
        reveal_strlit("mroot");
        assert("mroot"@ =~= seq!['m', 'r', 'o', 'o', 't']);
        reveal_strlit("msqrt");
        assert("msqrt"@ =~= seq!['m', 's', 'q', 'r', 't']);
        reveal_strlit("mfrac");
        assert("mfrac"@ =~= seq!['m', 'f', 'r', 'a', 'c']);
        reveal_strlit("msub");
        assert("msub"@ =~= seq!['m', 's', 'u', 'b']);
        reveal_strlit("msup");
        assert("msup"@ =~= seq!['m', 's', 'u', 'p']);
        reveal_strlit("msubsup");
        assert("msubsup"@ =~= seq!['m', 's', 'u', 'b', 's', 'u', 'p']);
        reveal_strlit("munder");
        assert("munder"@ =~= seq!['m', 'u', 'n', 'd', 'e', 'r']);
        reveal_strlit("mover");
        assert("mover"@ =~= seq!['m', 'o', 'v', 'e', 'r']);
        reveal_strlit("munderover");
        assert("munderover"@ =~= seq!['m', 'u', 'n', 'd', 'e', 'r', 'o', 'v', 'e', 'r']);
    }
    if text_is(tag, "math") {
        Some(ElementType::Root)
    } else if text_is(tag, "mrow") {
        Some(ElementType::Row)
    } else if text_is(tag, "mn") {
        Some(ElementType::Number)
    } else if text_is(tag, "mi") {
        Some(ElementType::Ident)
    } else if text_is(tag, "mo") {
        Some(ElementType::Operator)
    } else if text_is(tag, "mroot") {
        Some(ElementType::Radical)
    } else if text_is(tag, "msqrt") {
        Some(ElementType::Sqrt)
    } else if text_is(tag, "mfrac") {
        Some(ElementType::Fraction)
    } else if text_is(tag, "msub") {
        Some(ElementType::Subscript)
    } else if text_is(tag, "msup") {
        Some(ElementType::Superscript)
    } else if text_is(tag, "msubsup") {
        Some(ElementType::SubSuperscript)
    } else if text_is(tag, "munder") {
        Some(ElementType::Underscript)
    } else if text_is(tag, "mover") {
        Some(ElementType::Overscript)
    } else if text_is(tag, "munderover") {
        Some(ElementType::UnderOverscript)
    } else {
        None
    }
}

impl MathElement {
    /// Reads the expression tree of a markup element: `None` when its tag is
    /// unknown. Children of unknown tag are left out with their subtrees.
    pub fn from_xml(node: &MarkupNode) -> (r: Option<MathElement>)
        ensures
            r is None <==> tag_kind(node@.tag) is None,
            r matches Some(e) ==> builds(node@, e),
        decreases node,
    {
        match element_kind(node.tag.as_str()) {
            None => None,
            Some(kind) => {
                let mut children: Vec<MathElement> = Vec::new();
                let n = node.children.len();

                let mut i: usize = 0;
                while i < n
                    invariant
                        n == node.children@.len(),
                        i <= n,
                        builds_list(node@, i as int, children@),
                        node@.children == trees_of(*node, n as int),
                    decreases n - i,
                {
                    let ghost before = children@;
                    proof {
                        lemma_trees_of(*node, n as int);
                        assert(node@.children[i as int] == node.children@[i as int]@);
                    }
                    match MathElement::from_xml(&node.children[i]) {
                        Some(c) => {
                            children.push(c);
                            assert(children@.drop_last() =~= before);
                        },
                        None => {},
                    }
                    i = i + 1;
                }
                proof {
                    lemma_trees_of(*node, n as int);
                }
                Some(MathElement::new(kind, children, node.text.clone()))
            },
        }
    }
}

} // verus!
