//! Laws of the renderer, stated over the rendering specification and
//! proved once for all inputs.

use vstd::prelude::*;
use crate::handler::{DefaultHandler, Handler};
use crate::node::{attrs_view, spec_is_component_tag_name, Element, MdxNode};
use crate::render::{
    spec_props, spec_render_children, spec_render_element, spec_render_node, spec_render_roots,
    spec_serialize_element,
};

verus! {

/// Whether a node contains no custom tag anywhere in its subtree.
pub open spec fn spec_no_custom_node(n: MdxNode) -> bool
    decreases n,
{
    match n {
        MdxNode::Element(el) => !spec_is_component_tag_name(el.name@) && spec_no_custom_nodes(
            el.children@,
        ),
        _ => true,
    }
}

/// Whether a node list contains no custom tag anywhere.
pub open spec fn spec_no_custom_nodes(ns: Seq<MdxNode>) -> bool
    decreases ns,
{
    ns.len() == 0 || (spec_no_custom_nodes(ns.drop_last()) && spec_no_custom_node(ns.last()))
}

/// Handler-free re-serialization of one node.
pub open spec fn spec_serialize_node(n: MdxNode) -> Seq<char>
    decreases n,
{
    match n {
        MdxNode::Text(t) => t@,
        MdxNode::Comment(_) => Seq::empty(),
        MdxNode::Element(el) => spec_serialize_element(
            el.name@,
            el.id.deep_view(),
            el.classes.deep_view(),
            attrs_view(el.attributes@),
            spec_serialize_children(el.children@),
        ),
    }
}

/// Handler-free re-serialization of a child list, in source order.
pub open spec fn spec_serialize_children(ns: Seq<MdxNode>) -> Seq<char>
    decreases ns,
{
    if ns.len() == 0 {
        Seq::empty()
    } else {
        spec_serialize_children(ns.drop_last()) + spec_serialize_node(ns.last())
    }
}

/// Handler-free re-serialization of a top-level forest: element roots
/// only, as in rendering.
pub open spec fn spec_serialize_roots(ns: Seq<MdxNode>) -> Seq<char>
    decreases ns,
{
    if ns.len() == 0 {
        Seq::empty()
    } else {
        spec_serialize_roots(ns.drop_last()) + match ns.last() {
            MdxNode::Element(_) => spec_serialize_node(ns.last()),
            _ => Seq::empty(),
        }
    }
}

/// On a subtree without custom tags, rendering never consults the handler
/// and equals the normalized re-serialization of the subtree.
pub proof fn lemma_render_no_custom_node<H: Handler>(h: H, n: MdxNode)
    requires
        spec_no_custom_node(n),
    ensures
        spec_render_node(h, n) == Ok::<Seq<char>, Seq<char>>(spec_serialize_node(n)),
    decreases n,
{
    match n {
        MdxNode::Element(el) => {
            lemma_render_no_custom_children(h, el.children@);
        },
        _ => {},
    }
}

/// The same, for a child list: rendering a custom-free list succeeds and
/// equals its re-serialization, children concatenated in source order.
pub proof fn lemma_render_no_custom_children<H: Handler>(h: H, ns: Seq<MdxNode>)
    requires
        spec_no_custom_nodes(ns),
    ensures
        spec_render_children(h, ns) == Ok::<Seq<char>, Seq<char>>(spec_serialize_children(ns)),
    decreases ns,
{
    if ns.len() > 0 {
        lemma_render_no_custom_children(h, ns.drop_last());
        lemma_render_no_custom_node(h, ns.last());
    }
}

/// The same, for a whole forest: rendering a custom-free document is
/// exactly the normalized re-serialization of its element roots.
pub proof fn lemma_render_no_custom_roots<H: Handler>(h: H, ns: Seq<MdxNode>)
    requires
        spec_no_custom_nodes(ns),
    ensures
        spec_render_roots(h, ns) == Ok::<Seq<char>, Seq<char>>(spec_serialize_roots(ns)),
    decreases ns,
{
    if ns.len() > 0 {
        assert(spec_no_custom_nodes(ns.drop_last()) && spec_no_custom_node(ns.last()));
        lemma_render_no_custom_roots(h, ns.drop_last());
        match ns.last() {
            MdxNode::Element(el) => {
                assert(!spec_is_component_tag_name(el.name@) && spec_no_custom_nodes(
                    el.children@,
                ));
                lemma_render_no_custom_children(h, el.children@);
                assert(spec_serialize_roots(ns) == spec_serialize_roots(ns.drop_last())
                    + spec_serialize_node(ns.last()));
            },
            _ => {},
        }
    }
}

/// What a custom element's handler is given: once the children of a
/// custom element render to `cm` (their fully rendered markup,
/// concatenated in source order), the element renders to exactly the
/// handler's answer for props whose `children` field is `cm`.
pub proof fn lemma_handler_receives_children_markup<H: Handler>(h: H, el: Element, cm: Seq<char>)
    requires
        spec_is_component_tag_name(el.name@),
        spec_render_children(h, el.children@) == Ok::<Seq<char>, Seq<char>>(cm),
    ensures
        spec_render_element(h, el) == h.handle_spec(el.name@, spec_props(el, cm)),
        spec_props(el, cm).children == cm,
{
}

/// Rendering distributes over concatenation of child lists: when both
/// halves succeed, the whole succeeds with the concatenated markup.
pub proof fn lemma_render_children_concat<H: Handler>(
    h: H,
    ns1: Seq<MdxNode>,
    ns2: Seq<MdxNode>,
    a: Seq<char>,
    b: Seq<char>,
)
    requires
        spec_render_children(h, ns1) == Ok::<Seq<char>, Seq<char>>(a),
        spec_render_children(h, ns2) == Ok::<Seq<char>, Seq<char>>(b),
    ensures
        spec_render_children(h, ns1 + ns2) == Ok::<Seq<char>, Seq<char>>(a + b),
    decreases ns2.len(),
{
    if ns2.len() == 0 {
        assert(ns1 + ns2 =~= ns1);
        assert(a + b =~= a);
    } else {
        let front = ns2.drop_last();
        let pre = spec_render_children(h, front);
        let last = spec_render_node(h, ns2.last());
        match (pre, last) {
            (Ok(bpre), Ok(s)) => {
                lemma_render_children_concat(h, ns1, front, a, bpre);
                assert((ns1 + ns2).drop_last() =~= ns1 + front);
                assert((ns1 + ns2).last() == ns2.last());
                assert(b == bpre + s);
                assert(a + b =~= (a + bpre) + s);
            },
            _ => {
                assert(false);
            },
        }
    }
}

/// Nested custom tags render inner before outer: a custom tag at any
/// position inside another custom tag's child list has its handler's
/// markup standing at that position inside the `children` handed to the
/// outer handler, between its fully rendered left and right siblings.
pub proof fn lemma_nested_custom_inner_before_outer<H: Handler>(
    h: H,
    outer: Element,
    inner: Element,
    i: int,
    before: Seq<char>,
    inner_children_markup: Seq<char>,
    inner_markup: Seq<char>,
    after: Seq<char>,
)
    requires
        spec_is_component_tag_name(outer.name@),
        spec_is_component_tag_name(inner.name@),
        0 <= i < outer.children@.len(),
        outer.children@[i] == MdxNode::Element(inner),
        spec_render_children(h, outer.children@.subrange(0, i)) == Ok::<Seq<char>, Seq<char>>(
            before,
        ),
        spec_render_children(h, inner.children@) == Ok::<Seq<char>, Seq<char>>(
            inner_children_markup,
        ),
        h.handle_spec(inner.name@, spec_props(inner, inner_children_markup)) == Ok::<
            Seq<char>,
            Seq<char>,
        >(inner_markup),
        spec_render_children(
            h,
            outer.children@.subrange(i + 1, outer.children@.len() as int),
        ) == Ok::<Seq<char>, Seq<char>>(after),
    ensures
        spec_render_element(h, outer) == h.handle_spec(
            outer.name@,
            spec_props(outer, before + inner_markup + after),
        ),
{
    let cs = outer.children@;
    let mid = seq![cs[i]];
    assert(mid.drop_last() =~= Seq::<MdxNode>::empty());
    assert(mid.last() == MdxNode::Element(inner));
    assert(spec_render_element(h, inner) == Ok::<Seq<char>, Seq<char>>(inner_markup));
    assert(spec_render_node(h, mid.last()) == Ok::<Seq<char>, Seq<char>>(inner_markup));
    assert(spec_render_children(h, Seq::<MdxNode>::empty()) == Ok::<Seq<char>, Seq<char>>(
        Seq::<char>::empty(),
    ));
    assert(Seq::<char>::empty() + inner_markup =~= inner_markup);
    assert(spec_render_children(h, mid) == Ok::<Seq<char>, Seq<char>>(inner_markup));
    lemma_render_children_concat(h, cs.subrange(0, i), mid, before, inner_markup);
    lemma_render_children_concat(
        h,
        cs.subrange(0, i) + mid,
        cs.subrange(i + 1, cs.len() as int),
        before + inner_markup,
        after,
    );
    assert(cs.subrange(0, i) + mid + cs.subrange(i + 1, cs.len() as int) =~= cs);
    assert(spec_render_children(h, cs) == Ok::<Seq<char>, Seq<char>>(
        before + inner_markup + after,
    ));
}

/// With the default handler nothing ever fails: rendering any child list
/// succeeds.
pub proof fn lemma_default_handler_children_ok(ns: Seq<MdxNode>)
    ensures
        spec_render_children(DefaultHandler, ns) is Ok,
    decreases ns,
{
    if ns.len() > 0 {
        lemma_default_handler_children_ok(ns.drop_last());
        lemma_default_handler_node_ok(ns.last());
    }
}

/// With the default handler, rendering any one node succeeds.
pub proof fn lemma_default_handler_node_ok(n: MdxNode)
    ensures
        spec_render_node(DefaultHandler, n) is Ok,
    decreases n,
{
    match n {
        MdxNode::Element(el) => {
            lemma_default_handler_children_ok(el.children@);
        },
        _ => {},
    }
}

/// Under the default handler a custom tag renders to the empty string,
/// contributing nothing to its parent's output.
pub proof fn lemma_default_handler_elides_custom(el: Element)
    requires
        spec_is_component_tag_name(el.name@),
    ensures
        spec_render_element(DefaultHandler, el) == Ok::<Seq<char>, Seq<char>>(Seq::empty()),
{
    lemma_default_handler_children_ok(el.children@);
}

/// A handler failure on a custom element aborts that element's render
/// with exactly the handler's error.
pub proof fn lemma_handler_failure_aborts<H: Handler>(h: H, el: Element, cm: Seq<char>, e: Seq<char>)
    requires
        spec_is_component_tag_name(el.name@),
        spec_render_children(h, el.children@) == Ok::<Seq<char>, Seq<char>>(cm),
        h.handle_spec(el.name@, spec_props(el, cm)) == Err::<Seq<char>, Seq<char>>(e),
    ensures
        spec_render_element(h, el) == Err::<Seq<char>, Seq<char>>(e),
{
}

/// A failure below an element unwinds through it unchanged, whether the
/// element is custom or standard: no enclosing frame masks it.
pub proof fn lemma_child_failure_propagates<H: Handler>(h: H, el: Element, e: Seq<char>)
    requires
        spec_render_children(h, el.children@) == Err::<Seq<char>, Seq<char>>(e),
    ensures
        spec_render_element(h, el) == Err::<Seq<char>, Seq<char>>(e),
{
}

} // verus!
