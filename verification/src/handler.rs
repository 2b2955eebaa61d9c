//! The component dispatch capability: normalized props, the `Handler`
//! trait that renders custom tags, and a few ready-made handlers.
//!
//! Handlers answer synchronously, and every call is checked against the
//! impl's own `handle_spec`, so each impl is a function of its state and
//! its arguments. A caller whose component logic is asynchronous or
//! effectful resolves its answers before the render — say, into a
//! [`TableHandler`] registry — rather than awaiting inside one.

use vstd::prelude::*;
use crate::node::{attrs_view, Attribute, AttrView};

verus! {

/// Standardized props of a custom component, handed to a [`Handler`]:
/// the element's id, classes and attributes, and the already-rendered
/// markup of all of its children, concatenated in source order.
pub struct MdxComponentProps {
    pub id: Option<String>,
    pub classes: Vec<String>,
    pub attributes: Vec<Attribute>,
    pub children: String,
}

/// Ghost shape of [`MdxComponentProps`].
pub struct PropsView {
    pub id: Option<Seq<char>>,
    pub classes: Seq<Seq<char>>,
    pub attributes: Seq<AttrView>,
    pub children: Seq<char>,
}

impl View for MdxComponentProps {
    type V = PropsView;

    open spec fn view(&self) -> PropsView {
        PropsView {
            id: self.id.deep_view(),
            classes: self.classes.deep_view(),
            attributes: attrs_view(self.attributes@),
            children: self.children@,
        }
    }
}

/// Ghost shape of a rendering result: the markup on success, the
/// handler's failure message otherwise.
pub open spec fn result_view(r: Result<String, String>) -> Result<Seq<char>, Seq<char>> {
    match r {
        Ok(s) => Ok(s@),
        Err(e) => Err(e@),
    }
}

/// A `Handler` is in charge of rendering custom components: given a
/// component name and its props it either produces the markup that
/// replaces the component, or fails, which aborts the whole render.
pub trait Handler {
    /// What `handle` returns, as a function of the handler's own state,
    /// the component name and the props.
    spec fn handle_spec(&self, component_name: Seq<char>, props: PropsView) -> Result<
        Seq<char>,
        Seq<char>,
    >;

    /// Renders one custom component.
    fn handle(&self, component_name: String, props: MdxComponentProps) -> (r: Result<
        String,
        String,
    >)
        ensures
            result_view(r) == self.handle_spec(component_name@, props@),
    ;
}

/// The handler used when no component logic is registered: every custom
/// tag renders to the empty string, and no invocation ever fails.
pub struct DefaultHandler;

impl Handler for DefaultHandler {
    open spec fn handle_spec(&self, component_name: Seq<char>, props: PropsView) -> Result<
        Seq<char>,
        Seq<char>,
    > {
        Ok(Seq::empty())
    }

    fn handle(&self, component_name: String, props: MdxComponentProps) -> (r: Result<
        String,
        String,
    >) {
        Ok(String::new())
    }
}

/// A handler that renders every custom tag to the markup of its already
/// rendered children, dropping the tag itself.
pub struct EchoHandler;

impl Handler for EchoHandler {
    open spec fn handle_spec(&self, component_name: Seq<char>, props: PropsView) -> Result<
        Seq<char>,
        Seq<char>,
    > {
        Ok(props.children)
    }

    fn handle(&self, component_name: String, props: MdxComponentProps) -> (r: Result<
        String,
        String,
    >) {
        Ok(props.children)
    }
}

/// One registered component: a name and the fixed markup it renders to.
pub struct ComponentEntry {
    pub name: String,
    pub markup: String,
}

/// The markup of the first entry whose name matches, or the empty string
/// when no entry matches.
pub open spec fn spec_table_lookup(
    entries: Seq<ComponentEntry>,
    name: Seq<char>,
) -> Seq<char>
    decreases entries.len(),
{
    if entries.len() == 0 {
        Seq::empty()
    } else if entries[0].name@ == name {
        entries[0].markup@
    } else {
        spec_table_lookup(entries.drop_first(), name)
    }
}

/// A registry handler: each custom tag renders to the markup registered
/// under its name, and tags with no entry render to the empty string.
/// It never fails.
pub struct TableHandler {
    pub entries: Vec<ComponentEntry>,
}

impl Handler for TableHandler {
    open spec fn handle_spec(&self, component_name: Seq<char>, props: PropsView) -> Result<
        Seq<char>,
        Seq<char>,
    > {
        Ok(spec_table_lookup(self.entries@, component_name))
    }

    fn handle(&self, component_name: String, props: MdxComponentProps) -> (r: Result<
        String,
        String,
    >) {
        let mut i: usize = 0;
        proof {
            assert(self.entries@.skip(0) =~= self.entries@);
        }
        while i < self.entries.len()
            invariant
                i <= self.entries@.len(),
                spec_table_lookup(self.entries@, component_name@) == spec_table_lookup(
                    self.entries@.skip(i as int),
                    component_name@,
                ),
            decreases self.entries@.len() - i,
        {
            if self.entries[i].name == component_name {
                assert(self.entries@.skip(i as int)[0] == self.entries@[i as int]);
                return Ok(self.entries[i].markup.clone());
            }
            proof {
                assert(self.entries@.skip(i as int)[0] == self.entries@[i as int]);
                assert(self.entries@.skip(i as int).drop_first() =~= self.entries@.skip(
                    i as int + 1,
                ));
            }
            i = i + 1;
        }
        proof {
            assert(self.entries@.skip(i as int).len() == 0);
        }
        Ok(String::new())
    }
}

/// A handler that fails for exactly one component name, with a fixed
/// message, and renders every other custom tag to the empty string.
pub struct FailingHandler {
    pub component_name: String,
    pub message: String,
}

impl Handler for FailingHandler {
    open spec fn handle_spec(&self, component_name: Seq<char>, props: PropsView) -> Result<
        Seq<char>,
        Seq<char>,
    > {
        if component_name == self.component_name@ {
            Err(self.message@)
        } else {
            Ok(Seq::empty())
        }
    }

    fn handle(&self, component_name: String, props: MdxComponentProps) -> (r: Result<
        String,
        String,
    >) {
        if component_name == self.component_name {
            Err(self.message.clone())
        } else {
            Ok(String::new())
        }
    }
}

} // verus!
