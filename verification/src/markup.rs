//! The markup parser boundary: markup text is parsed into the library's
//! node forest by an outside parser.
//!
//! The parser is a black box: nothing is promised about the forest it
//! yields (in particular, it hands attributes over in its own map order),
//! so the contracts of rendering take the forest as an argument and are
//! exact from there.

use vstd::prelude::*;
use crate::node::{Attribute, Element, MdxNode};

verus! {

/// Whether the outside markup parser accepts a markup text. The
/// accept/reject outcome is a function of the text alone.
pub uninterp spec fn spec_parse_ok(markup: Seq<char>) -> bool;

/// The message with which the outside markup parser rejects a markup
/// text; like the outcome, a function of the text alone.
pub uninterp spec fn spec_parse_err(markup: Seq<char>) -> Seq<char>;

/// Relies on html_parser_rscx::Dom::parse: parses markup text into a
/// forest of root nodes, failing on markup that is not well formed.
/// Whether it accepts, and with which message it rejects, depend on the
/// text alone; the forest itself carries no promise (its attribute order
/// comes from a map walk).
#[verifier::external_body]
fn parse_markup_forest(markup: &str) -> (r: Result<Vec<html_parser_rscx::Node>, String>)
    ensures
        r is Ok <==> spec_parse_ok(markup@),
        r matches Err(m) ==> m@ == spec_parse_err(markup@),
{
    match html_parser_rscx::Dom::parse(markup) {
        Ok(dom) => Ok(dom.children),
        Err(e) => Err(e.to_string()),
    }
}

/// Relies on the field shapes of html_parser_rscx::Node and
/// html_parser_rscx::Element: copies one parsed node, and recursively its
/// children, into the library's node model, field by field. Attributes
/// arrive in the parser's own map order.
#[verifier::external_body]
fn node_from_parsed(n: &html_parser_rscx::Node) -> (r: MdxNode)
{
    match n {
        html_parser_rscx::Node::Text(t) => MdxNode::Text(t.clone()),
        html_parser_rscx::Node::Comment(c) => MdxNode::Comment(c.clone()),
        html_parser_rscx::Node::Element(e) => MdxNode::Element(Element {
            name: e.name.clone(),
            id: e.id.clone(),
            classes: e.classes.clone(),
            attributes: e.attributes.iter().map(
                |(k, v)| Attribute { key: k.clone(), value: v.clone() },
            ).collect(),
            children: e.children.iter().map(node_from_parsed).collect(),
        }),
    }
}

/// Parses markup text into the library's node forest, failing exactly
/// where the outside parser fails, with the parser's message. The forest
/// itself is whatever the parser produced.
pub fn parse_markup(markup: &str) -> (r: Result<Vec<MdxNode>, String>)
    ensures
        r is Ok <==> spec_parse_ok(markup@),
        r matches Err(m) ==> m@ == spec_parse_err(markup@),
{
    match parse_markup_forest(markup) {
        Ok(raw) => {
            let mut nodes: Vec<MdxNode> = Vec::new();
            let mut i: usize = 0;
            while i < raw.len()
                decreases raw@.len() - i,
            {
                nodes.push(node_from_parsed(&raw[i]));
                i = i + 1;
            }
            Ok(nodes)
        },
        Err(m) => Err(m),
    }
}

} // verus!
