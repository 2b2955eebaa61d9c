//! The whole pipeline: markdown source to rendered markup, through the
//! compile, parse and render stages.

use vstd::prelude::*;
use crate::handler::Handler;
use crate::markdown::{compile, markup_of, spec_split_front_matter};
use crate::markup::{parse_markup, spec_parse_err, spec_parse_ok};
use crate::render::render_nodes;

verus! {

/// Why a render failed, by stage: the source could not be compiled to
/// markup, the markup was not well formed, or a component handler failed.
/// Each variant carries that stage's message.
#[derive(Debug, PartialEq, Eq)]
pub enum RenderError {
    Compile(String),
    Parse(String),
    Handler(String),
}

impl RenderError {
    /// The failing stage's message.
    pub fn message(&self) -> (m: &String)
        ensures
            m@ == match *self {
                RenderError::Compile(ref s) => s@,
                RenderError::Parse(ref s) => s@,
                RenderError::Handler(ref s) => s@,
            },
    {
        match self {
            RenderError::Compile(s) => s,
            RenderError::Parse(s) => s,
            RenderError::Handler(s) => s,
        }
    }
}

/// Renders a source document: the markdown (with an optional front-matter
/// block, which is split off and not surfaced) is compiled to markup, the
/// markup is parsed into a node forest, and the forest is rendered with
/// `handler` deciding every custom tag.
///
/// The compile stage fails exactly when an opened front-matter block is
/// never closed. What the outside parser yields for given markup is not
/// modelled, so the rendering of the parsed forest is pinned down by
/// [`render_nodes`] and [`crate::render::process_element`], which this
/// function applies to whatever forest the parser produced; a failure of
/// the parser or of the handler is reported under its own variant, never
/// as partial output.
pub fn render<H: Handler>(source: &str, handler: &H) -> (r: Result<String, RenderError>)
    ensures
        (r matches Err(RenderError::Compile(m)) && m@ == "unterminated front matter"@)
            <==> spec_split_front_matter(source@) is None,
        spec_split_front_matter(source@) is Some ==> !(r matches Err(RenderError::Compile(_))),
        (r matches Err(RenderError::Parse(_))) <==> (spec_split_front_matter(source@) matches Some(
            sp,
        ) && !spec_parse_ok(markup_of(sp.1))),
        spec_split_front_matter(source@) matches Some(sp) ==> (!spec_parse_ok(markup_of(sp.1))
            ==> (r matches Err(RenderError::Parse(m)) && m@ == spec_parse_err(markup_of(sp.1)))),
        spec_split_front_matter(source@) matches Some(sp) ==> (spec_parse_ok(markup_of(sp.1))
            ==> (r is Ok || r matches Err(RenderError::Handler(_)))),
{
    let markup = match compile(source) {
        Ok(c) => c.1,
        Err(m) => {
            return Err(RenderError::Compile(m));
        },
    };
    let nodes = match parse_markup(markup.as_str()) {
        Ok(ns) => ns,
        Err(m) => {
            return Err(RenderError::Parse(m));
        },
    };
    match render_nodes(nodes, handler) {
        Ok(out) => Ok(out),
        Err(m) => Err(RenderError::Handler(m)),
    }
}

} // verus!
