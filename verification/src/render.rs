//! The tree renderer: a depth-first walk of the node forest that
//! re-serializes standard tags and delegates custom tags to a
//! [`Handler`], always rendering all children of a node, in source
//! order, before the node itself.
//!
//! Standard elements are re-serialized in a normalized form — explicit
//! attributes in source order, then the class attribute, then the id
//! attribute — rather than preserved as their verbatim source span, so
//! re-rendering the output reproduces it.

use vstd::prelude::*;
use vstd::string::StringExecFns;
use crate::handler::{result_view, Handler, MdxComponentProps, PropsView};
use crate::node::{
    attrs_view, is_component_tag_name, spec_is_component_tag_name, AttrView, Attribute, Element,
    MdxNode,
};

verus! {

/// Markup of one attribute inside an opening tag: `key="value"`, or the
/// bare key for a boolean attribute.
pub open spec fn spec_attr_markup(a: AttrView) -> Seq<char> {
    match a.value {
        Some(v) => a.key + "=\""@ + v + "\""@,
        None => a.key,
    }
}

/// Markup of the explicit attributes of an opening tag, in source order,
/// each preceded by one space.
pub open spec fn spec_attrs_markup(attrs: Seq<AttrView>) -> Seq<char>
    decreases attrs.len(),
{
    if attrs.len() == 0 {
        Seq::empty()
    } else {
        spec_attrs_markup(attrs.drop_last()) + " "@ + spec_attr_markup(attrs.last())
    }
}

/// Classes joined by single spaces, in source order.
pub open spec fn spec_classes_markup(classes: Seq<Seq<char>>) -> Seq<char>
    decreases classes.len(),
{
    if classes.len() == 0 {
        Seq::empty()
    } else if classes.len() == 1 {
        classes[0]
    } else {
        spec_classes_markup(classes.drop_last()) + " "@ + classes.last()
    }
}

/// The `class="..."` attribute appended after the explicit attributes,
/// present exactly when the element has classes.
pub open spec fn spec_class_attr_markup(classes: Seq<Seq<char>>) -> Seq<char> {
    if classes.len() == 0 {
        Seq::empty()
    } else {
        " class=\""@ + spec_classes_markup(classes) + "\""@
    }
}

/// The `id="..."` attribute appended last, present exactly when the
/// element has an id.
pub open spec fn spec_id_attr_markup(id: Option<Seq<char>>) -> Seq<char> {
    match id {
        Some(i) => " id=\""@ + i + "\""@,
        None => Seq::empty(),
    }
}

/// Re-serialized markup of a standard element whose children have already
/// been rendered to `children_markup`: the opening tag carries the
/// explicit attributes in source order, then the class attribute, then
/// the id attribute.
pub open spec fn spec_serialize_element(
    name: Seq<char>,
    id: Option<Seq<char>>,
    classes: Seq<Seq<char>>,
    attrs: Seq<AttrView>,
    children_markup: Seq<char>,
) -> Seq<char> {
    "<"@ + name + spec_attrs_markup(attrs) + spec_class_attr_markup(classes)
        + spec_id_attr_markup(id) + ">"@ + children_markup + "</"@ + name + ">"@
}

/// The props handed to a handler for `el`: the element's id, classes and
/// attributes, and the rendered markup of its children.
pub open spec fn spec_props(el: Element, children_markup: Seq<char>) -> PropsView {
    PropsView {
        id: el.id.deep_view(),
        classes: el.classes.deep_view(),
        attributes: attrs_view(el.attributes@),
        children: children_markup,
    }
}

/// Rendering of one node: text renders to its literal content, comments
/// render to nothing, elements render recursively.
pub open spec fn spec_render_node<H: Handler>(h: H, n: MdxNode) -> Result<Seq<char>, Seq<char>>
    decreases n,
{
    match n {
        MdxNode::Text(t) => Ok(t@),
        MdxNode::Comment(_) => Ok(Seq::empty()),
        MdxNode::Element(el) => spec_render_element(h, el),
    }
}

/// Rendering of a child list: every child fully rendered, concatenated in
/// source order; the first failure aborts the whole list.
pub open spec fn spec_render_children<H: Handler>(h: H, ns: Seq<MdxNode>) -> Result<
    Seq<char>,
    Seq<char>,
>
    decreases ns,
{
    if ns.len() == 0 {
        Ok(Seq::empty())
    } else {
        match spec_render_children(h, ns.drop_last()) {
            Err(e) => Err(e),
            Ok(pre) => match spec_render_node(h, ns.last()) {
                Err(e) => Err(e),
                Ok(s) => Ok(pre + s),
            },
        }
    }
}

/// Rendering of one element: all children first, in source order; then
/// a custom element is replaced by its handler's markup while a standard
/// element is re-serialized around its children's markup.
pub open spec fn spec_render_element<H: Handler>(h: H, el: Element) -> Result<Seq<char>, Seq<char>>
    decreases el,
{
    match spec_render_children(h, el.children@) {
        Err(e) => Err(e),
        Ok(cm) => if spec_is_component_tag_name(el.name@) {
            h.handle_spec(el.name@, spec_props(el, cm))
        } else {
            Ok(
                spec_serialize_element(
                    el.name@,
                    el.id.deep_view(),
                    el.classes.deep_view(),
                    attrs_view(el.attributes@),
                    cm,
                ),
            )
        },
    }
}

/// Rendering of the top-level forest: element roots render as anywhere
/// else, while top-level text and comments are skipped.
pub open spec fn spec_render_roots<H: Handler>(h: H, ns: Seq<MdxNode>) -> Result<Seq<char>, Seq<char>>
    decreases ns,
{
    if ns.len() == 0 {
        Ok(Seq::empty())
    } else {
        match spec_render_roots(h, ns.drop_last()) {
            Err(e) => Err(e),
            Ok(pre) => match ns.last() {
                MdxNode::Element(el) => match spec_render_element(h, el) {
                    Err(e) => Err(e),
                    Ok(s) => Ok(pre + s),
                },
                _ => Ok(pre),
            },
        }
    }
}

/// A failing prefix decides a child list: once some prefix of `ns`
/// renders to an error, the whole list renders to that same error.
proof fn lemma_render_children_prefix_err<H: Handler>(h: H, ns: Seq<MdxNode>, i: int)
    requires
        0 <= i <= ns.len(),
        spec_render_children(h, ns.subrange(0, i)) is Err,
    ensures
        spec_render_children(h, ns) == spec_render_children(h, ns.subrange(0, i)),
    decreases ns.len(),
{
    if i == ns.len() {
        assert(ns.subrange(0, i) =~= ns);
    } else {
        assert(ns.drop_last().subrange(0, i) =~= ns.subrange(0, i));
        lemma_render_children_prefix_err(h, ns.drop_last(), i);
    }
}

/// The same for the top-level forest: a failing prefix decides it.
proof fn lemma_render_roots_prefix_err<H: Handler>(h: H, ns: Seq<MdxNode>, i: int)
    requires
        0 <= i <= ns.len(),
        spec_render_roots(h, ns.subrange(0, i)) is Err,
    ensures
        spec_render_roots(h, ns) == spec_render_roots(h, ns.subrange(0, i)),
    decreases ns.len(),
{
    if i == ns.len() {
        assert(ns.subrange(0, i) =~= ns);
    } else {
        assert(ns.drop_last().subrange(0, i) =~= ns.subrange(0, i));
        lemma_render_roots_prefix_err(h, ns.drop_last(), i);
    }
}

/// The explicit attributes of an opening tag, serialized in source order.
fn attrs_markup(attributes: &Vec<Attribute>) -> (out: String)
    ensures
        out@ == spec_attrs_markup(attrs_view(attributes@)),
{
    let ghost avs = attrs_view(attributes@);
    let mut out = String::new();
    let mut i: usize = 0;
    proof {
        assert(avs.subrange(0, 0) =~= Seq::<AttrView>::empty());
    }
    while i < attributes.len()
        invariant
            i <= attributes@.len(),
            avs == attrs_view(attributes@),
            avs.len() == attributes@.len(),
            out@ == spec_attrs_markup(avs.subrange(0, i as int)),
        decreases attributes@.len() - i,
    {
        out.append(" ");
        out.append(attributes[i].key.as_str());
        match &attributes[i].value {
            Some(v) => {
                out.append("=\"");
                out.append(v.as_str());
                out.append("\"");
            },
            None => {},
        }
        proof {
            assert(avs[i as int] == attributes@[i as int]@);
            assert(avs.subrange(0, i + 1).drop_last() =~= avs.subrange(0, i as int));
            assert(avs.subrange(0, i + 1).last() == avs[i as int]);
            assert(out@ =~= spec_attrs_markup(avs.subrange(0, i + 1)));
        }
        i = i + 1;
    }
    proof {
        assert(avs.subrange(0, avs.len() as int) =~= avs);
    }
    out
}

/// The `class="..."` attribute of an opening tag, or the empty string
/// when the element has no classes.
fn class_attr_markup(classes: &Vec<String>) -> (out: String)
    ensures
        out@ == spec_class_attr_markup(classes.deep_view()),
{
    let ghost cvs = classes.deep_view();
    let mut out = String::new();
    if classes.len() == 0 {
        return out;
    }
    out.append(" class=\"");
    out.append(classes[0].as_str());
    proof {
        assert(cvs[0] == classes@[0]@);
        assert(cvs.subrange(0, 1).len() == 1);
        assert(cvs.subrange(0, 1)[0] == cvs[0]);
        assert(out@ =~= " class=\""@ + spec_classes_markup(cvs.subrange(0, 1)));
    }
    let mut j: usize = 1;
    while j < classes.len()
        invariant
            1 <= j <= classes@.len(),
            cvs == classes.deep_view(),
            cvs.len() == classes@.len(),
            out@ == " class=\""@ + spec_classes_markup(cvs.subrange(0, j as int)),
        decreases classes@.len() - j,
    {
        out.append(" ");
        out.append(classes[j].as_str());
        proof {
            assert(cvs[j as int] == classes@[j as int]@);
            assert(cvs.subrange(0, j + 1).drop_last() =~= cvs.subrange(0, j as int));
            assert(cvs.subrange(0, j + 1).last() == cvs[j as int]);
            assert(out@ =~= " class=\""@ + spec_classes_markup(cvs.subrange(0, j + 1)));
        }
        j = j + 1;
    }
    proof {
        assert(cvs.subrange(0, cvs.len() as int) =~= cvs);
    }
    out.append("\"");
    out
}

/// Re-serializes a standard element around its already rendered
/// children's markup.
fn serialize_element(
    name: &String,
    id: &Option<String>,
    classes: &Vec<String>,
    attributes: &Vec<Attribute>,
    children_markup: &String,
) -> (out: String)
    ensures
        out@ == spec_serialize_element(
            name@,
            id.deep_view(),
            classes.deep_view(),
            attrs_view(attributes@),
            children_markup@,
        ),
{
    let mut out = String::from_str("<");
    out.append(name.as_str());
    let attrs_part = attrs_markup(attributes);
    out.append(attrs_part.as_str());
    let class_part = class_attr_markup(classes);
    out.append(class_part.as_str());
    match id {
        Some(i) => {
            out.append(" id=\"");
            out.append(i.as_str());
            out.append("\"");
        },
        None => {},
    }
    out.append(">");
    out.append(children_markup.as_str());
    out.append("</");
    out.append(name.as_str());
    out.append(">");
    proof {
        assert(out@ =~= spec_serialize_element(
            name@,
            id.deep_view(),
            classes.deep_view(),
            attrs_view(attributes@),
            children_markup@,
        ));
    }
    out
}

/// Renders one node: text renders to its literal content, comments
/// render to nothing, elements render recursively.
pub fn process_node<H: Handler>(n: MdxNode, handler: &H) -> (r: Result<String, String>)
    ensures
        result_view(r) == spec_render_node(*handler, n),
    decreases n,
{
    match n {
        MdxNode::Text(t) => Ok(t),
        MdxNode::Comment(_) => Ok(String::new()),
        MdxNode::Element(el) => process_element(el, handler),
    }
}

/// Renders one element. Every child is fully rendered first, in source
/// order; then a custom element is replaced by its handler's markup
/// while a standard element is re-serialized around its children's
/// markup. A handler failure aborts the render and is returned as the
/// error.
#[verifier::loop_isolation(false)]
pub fn process_element<H: Handler>(el: Element, handler: &H) -> (r: Result<String, String>)
    ensures
        result_view(r) == spec_render_element(*handler, el),
    decreases el,
{
    let ghost gel = el;
    let Element { name, id, classes, attributes, children } = el;
    let ghost cs = gel.children@;
    let mut rest = children;
    let mut children_markup = String::new();
    let ghost mut i: int = 0;
    proof {
        assert(rest@ =~= cs.skip(0));
        assert(cs.subrange(0, 0) =~= Seq::<MdxNode>::empty());
    }
    while rest.len() > 0
        invariant
            0 <= i <= cs.len(),
            cs == gel.children@,
            rest@ == cs.skip(i),
            spec_render_children(*handler, cs.subrange(0, i)) == Ok::<Seq<char>, Seq<char>>(
                children_markup@,
            ),
        decreases rest@.len(),
    {
        let ghost old_rest = rest@;
        let child = rest.remove(0);
        proof {
            assert(old_rest[0] == cs.skip(i)[0]);
            assert(child == cs[i]);
            assert(rest@ =~= cs.skip(i + 1));
            assert(decreases_to!(gel => gel.children@));
            assert(decreases_to!(gel.children@ => gel.children@[i]));
            assert(decreases_to!(gel => child));
        }
        match process_node(child, handler) {
            Ok(s) => {
                children_markup.append(s.as_str());
                proof {
                    assert(cs.subrange(0, i + 1).drop_last() =~= cs.subrange(0, i));
                    assert(cs.subrange(0, i + 1).last() == cs[i]);
                    i = i + 1;
                }
            },
            Err(e) => {
                proof {
                    assert(cs.subrange(0, i + 1).drop_last() =~= cs.subrange(0, i));
                    assert(cs.subrange(0, i + 1).last() == cs[i]);
                    assert(spec_render_children(*handler, cs.subrange(0, i + 1)) == Err::<
                        Seq<char>,
                        Seq<char>,
                    >(e@));
                    lemma_render_children_prefix_err(*handler, cs, i + 1);
                    assert(spec_render_children(*handler, cs) == Err::<Seq<char>, Seq<char>>(e@));
                    assert(spec_render_element(*handler, gel) == Err::<Seq<char>, Seq<char>>(e@));
                }
                return Err(e);
            },
        }
    }
    proof {
        assert(i == cs.len());
        assert(cs.subrange(0, i) =~= cs);
    }
    let ghost cm = children_markup@;
    if is_component_tag_name(name.as_str()) {
        let props = MdxComponentProps { id, classes, attributes, children: children_markup };
        proof {
            assert(props@ == spec_props(gel, cm));
        }
        handler.handle(name, props)
    } else {
        Ok(serialize_element(&name, &id, &classes, &attributes, &children_markup))
    }
}

/// Renders a top-level forest: element roots are rendered in source
/// order and concatenated; top-level text and comments are skipped.
#[verifier::loop_isolation(false)]
pub fn render_nodes<H: Handler>(nodes: Vec<MdxNode>, handler: &H) -> (r: Result<String, String>)
    ensures
        result_view(r) == spec_render_roots(*handler, nodes@),
{
    let ghost cs = nodes@;
    let mut rest = nodes;
    let mut out = String::new();
    let ghost mut i: int = 0;
    proof {
        assert(rest@ =~= cs.skip(0));
        assert(cs.subrange(0, 0) =~= Seq::<MdxNode>::empty());
    }
    while rest.len() > 0
        invariant
            0 <= i <= cs.len(),
            rest@ == cs.skip(i),
            spec_render_roots(*handler, cs.subrange(0, i)) == Ok::<Seq<char>, Seq<char>>(out@),
        decreases rest@.len(),
    {
        let ghost old_rest = rest@;
        let root = rest.remove(0);
        proof {
            assert(old_rest[0] == cs.skip(i)[0]);
            assert(root == cs[i]);
            assert(rest@ =~= cs.skip(i + 1));
            assert(cs.subrange(0, i + 1).drop_last() =~= cs.subrange(0, i));
            assert(cs.subrange(0, i + 1).last() == cs[i]);
        }
        match root {
            MdxNode::Element(el) => {
                match process_element(el, handler) {
                    Ok(s) => {
                        out.append(s.as_str());
                    },
                    Err(e) => {
                        proof {
                            assert(cs[i] == MdxNode::Element(el));
                            assert(spec_render_roots(*handler, cs.subrange(0, i + 1)) == Err::<
                                Seq<char>,
                                Seq<char>,
                            >(e@));
                            lemma_render_roots_prefix_err(*handler, cs, i + 1);
                            assert(spec_render_roots(*handler, cs) == Err::<Seq<char>, Seq<char>>(
                                e@,
                            ));
                        }
                        return Err(e);
                    },
                }
            },
            _ => {},
        }
        proof {
            i = i + 1;
        }
    }
    proof {
        assert(i == cs.len());
        assert(cs.subrange(0, i) =~= cs);
    }
    Ok(out)
}

} // verus!
