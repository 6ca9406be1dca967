//! Reading markup text with the `roxmltree` parser into a [`MarkupNode`] tree.

use roxmltree::{Document, Node};
use vstd::prelude::*;

use crate::markup::{MarkupNode, MarkupTree};

verus! {

#[verifier::external_type_specification]
#[verifier::external_body]
pub struct ExNode<'a, 'input: 'a>(Node<'a, 'input>);

#[verifier::external_type_specification]
#[verifier::external_body]
pub struct ExXmlError(roxmltree::Error);

/// Why markup text could not be read.
#[derive(Clone, Copy, Debug, PartialEq, Eq, Structural)]
pub enum MarkupError {
    /// The text is not well-formed XML.
    Malformed,
    /// The root element's tag names no kind of expression element.
    UnknownRoot,
}

/// Whether `roxmltree` accepts the text as a well-formed XML document.
pub uninterp spec fn well_formed(text: Seq<char>) -> bool;

/// The root element of the document that `roxmltree` reads from the text,
/// with every node below it.
pub uninterp spec fn markup_of(text: Seq<char>) -> MarkupTree;

/// Relies on `roxmltree::Document::parse` and `Document::root_element`: the
/// parser accepts the text or not, and a document it accepts always has a
/// root element, which is copied node by node.
#[verifier::external_body]
fn parse_tree(text: &str) -> (r: Result<MarkupNode, roxmltree::Error>)
    ensures
        r is Ok <==> well_formed(text@),
        r matches Ok(m) ==> m@ == markup_of(text@),
{
    Document::parse(text).map(|doc| copy_node(doc.root_element()))
}

/// Relies on `roxmltree::Node::tag_name` and `ExpandedName::name`: the local
/// name of an element, empty for any other node.
#[verifier::external_body]
fn tag_name<'a, 'input>(node: Node<'a, 'input>) -> (r: String) {
    node.tag_name().name().to_string()
}

/// Relies on `roxmltree::Node::text`: the node's text, if any.
#[verifier::external_body]
fn node_text<'a, 'input>(node: Node<'a, 'input>) -> (r: Option<String>) {
    node.text().map(|t| t.to_string())
}

/// Relies on `roxmltree::Node::children`: the node's children in document
/// order, each copied by [`copy_node`].
#[verifier::external_body]
fn child_copies<'a, 'input>(node: Node<'a, 'input>) -> (r: Vec<MarkupNode>) {
    node.children().map(copy_node).collect()
}

/// Copies a node and the nodes below it.
fn copy_node<'a, 'input>(node: Node<'a, 'input>) -> (r: MarkupNode) {
    let tag = tag_name(node);
    let text = match node_text(node) {
        Some(t) => t,
        None => String::new(),
    };
    MarkupNode::new(tag, text, child_copies(node))
}

/// Parses markup text into the tree of its root element.
pub fn parse_markup(text: &str) -> (r: Result<MarkupNode, MarkupError>)
    ensures
        r is Ok <==> well_formed(text@),
        r matches Ok(m) ==> m@ == markup_of(text@),
        r matches Err(e) ==> e == MarkupError::Malformed,
{
    match parse_tree(text) {
        Ok(root) => Ok(root),
        Err(_) => Err(MarkupError::Malformed),
    }
}

} // verus!
